use vstd::prelude::*;

use crate::error::RenderError;

verus! {

#[verifier::external_type_specification]
#[verifier::external_body]
pub struct ExOptions<'a>(usvg::Options<'a>);

#[verifier::external_type_specification]
#[verifier::external_body]
pub struct ExUsvgError(usvg::Error);

/// Relies on usvg::Tree::from_str: parses markup into a scene, or reports
/// why it could not.
#[verifier::external_body]
fn parse_svg(svg: &str, opts: &usvg::Options) -> (r: Result<usvg::Tree, usvg::Error>) {
    usvg::Tree::from_str(svg, opts)
}

/// Relies on usvg::Error's `Display`, for the message of a parse failure.
#[verifier::external_body]
fn parse_error_message(e: &usvg::Error) -> (r: String) {
    e.to_string()
}

/// Relies on usvg::Tree::size and Size::to_int_size: the scene's size rounded
/// to whole pixels, never below one pixel in either direction.
#[verifier::external_body]
fn scene_int_size(tree: &usvg::Tree) -> (r: (u32, u32))
    ensures
        r.0 >= 1,
        r.1 >= 1,
{
    let size = tree.size().to_int_size();
    (size.width(), size.height())
}

/// A parsed, immutable scene together with its intrinsic size in whole pixels.
pub struct Scene {
    inner: usvg::Tree,
    width: u32,
    height: u32,
}

impl Scene {
    #[verifier::type_invariant]
    spec fn inv(&self) -> bool {
        self.width >= 1 && self.height >= 1
    }

    /// The intrinsic size of the scene, in whole pixels.
    pub closed spec fn size(&self) -> (u32, u32) {
        (self.width, self.height)
    }

    /// Parses markup with the given options. A parse failure is reported as
    /// `RenderError::Parse`, never as an abort.
    pub fn from_str(svg: &str, opts: &usvg::Options) -> (r: Result<Scene, RenderError>)
        ensures
            r matches Ok(t) ==> t.size().0 >= 1 && t.size().1 >= 1,
            r matches Err(e) ==> e is Parse,
    {
        match parse_svg(svg, opts) {
            Ok(inner) => {
                let (width, height) = scene_int_size(&inner);
                Ok(Scene { inner, width, height })
            },
            Err(e) => Err(RenderError::Parse(parse_error_message(&e))),
        }
    }

    /// The intrinsic size of the scene: the same on every call.
    pub fn int_size(&self) -> (r: (u32, u32))
        ensures
            r == self.size(),
            r.0 >= 1 && r.1 >= 1,
    {
        proof {
            use_type_invariant(self);
        }
        (self.width, self.height)
    }

    /// The parsed scene that the rasterizer paints.
    pub(crate) fn usvg_tree(&self) -> &usvg::Tree {
        &self.inner
    }
}

} // verus!
