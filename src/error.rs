use vstd::prelude::*;

verus! {

/// Which argument made a background request contradictory.
#[derive(Clone, Copy, Debug, PartialEq, Eq, Structural)]
pub enum Conflict {
    /// A background file was given together with data, a size or a color.
    WithFile,
    /// Background data was given together with a size or a color.
    WithData,
}

/// Every failure that the rendering layer reports to its caller.
#[derive(Debug)]
pub enum RenderError {
    /// Mutually exclusive background inputs were supplied together.
    InvalidArguments(Conflict),
    /// The document markup could not be turned into a scene.
    Parse(String),
    /// A background PNG could not be decoded.
    Decode(String),
    /// The pixel buffer could not be allocated with the requested dimensions.
    Allocation,
    /// The final buffer could not be encoded as PNG.
    Encode(String),
}

} // verus!
