use vstd::prelude::*;

use crate::error::{Conflict, RenderError};

verus! {

/// A straight (not premultiplied) RGBA color with eight bits per channel.
#[derive(Clone, Copy, Debug, PartialEq, Eq, Structural)]
pub struct Rgba8 {
    pub r: u8,
    pub g: u8,
    pub b: u8,
    pub a: u8,
}

/// Where the initial pixel buffer of a render comes from.
#[derive(Debug)]
pub enum BackgroundSpec {
    /// A PNG file on disk, whose decoded pixels become the buffer.
    File(String),
    /// PNG bytes held in memory, decoded the same way.
    Data(Vec<u8>),
    /// A freshly allocated buffer: of the given size, or of the scene's own
    /// size when none is given, filled with `color` when one is given and
    /// fully transparent otherwise.
    Fill { size: Option<(u32, u32)>, color: Option<Rgba8> },
}

/// Which combinations of background inputs may be given together: a file
/// excludes every other input, and data excludes a size and a color.
/// A color without a size is accepted and fills a buffer of the scene's size.
pub open spec fn legal_combination(file: bool, data: bool, size: bool, color: bool) -> bool {
    &&& file ==> !data && !size && !color
    &&& data ==> !size && !color
}

/// Checks that the background inputs are not contradictory and turns them
/// into a single specification. Nothing is read, decoded or allocated here.
pub fn select_background(
    bg_file: Option<String>,
    bg_data: Option<Vec<u8>>,
    bg_size: Option<(u32, u32)>,
    bg_color: Option<Rgba8>,
) -> (r: Result<BackgroundSpec, RenderError>)
    ensures
        r is Err <==> !legal_combination(
            bg_file is Some,
            bg_data is Some,
            bg_size is Some,
            bg_color is Some,
        ),
        r is Err && bg_file is Some ==> r == Err::<BackgroundSpec, RenderError>(
            RenderError::InvalidArguments(Conflict::WithFile),
        ),
        r is Err && bg_file is None ==> r == Err::<BackgroundSpec, RenderError>(
            RenderError::InvalidArguments(Conflict::WithData),
        ),
        r is Ok && bg_file is Some ==> r == Ok::<BackgroundSpec, RenderError>(
            BackgroundSpec::File(bg_file->Some_0),
        ),
        r is Ok && bg_file is None && bg_data is Some ==> r == Ok::<BackgroundSpec, RenderError>(
            BackgroundSpec::Data(bg_data->Some_0),
        ),
        r is Ok && bg_file is None && bg_data is None ==> r == Ok::<BackgroundSpec, RenderError>(
            BackgroundSpec::Fill { size: bg_size, color: bg_color },
        ),
{
    match bg_file {
        Some(path) => {
            if bg_data.is_some() || bg_size.is_some() || bg_color.is_some() {
                return Err(RenderError::InvalidArguments(Conflict::WithFile));
            }
            Ok(BackgroundSpec::File(path))
        },
        None => match bg_data {
            Some(data) => {
                if bg_size.is_some() || bg_color.is_some() {
                    return Err(RenderError::InvalidArguments(Conflict::WithData));
                }
                Ok(BackgroundSpec::Data(data))
            },
            None => Ok(BackgroundSpec::Fill { size: bg_size, color: bg_color }),
        },
    }
}

} // verus!
