use vstd::prelude::*;

use crate::background::{legal_combination, select_background, BackgroundSpec, Rgba8};
use crate::error::RenderError;
use crate::pixmap::{
    allocatable, channel, decode_png, encode_png, fill_pixmap, fill_value, new_pixmap,
    pixmap_data, pixmap_size, png_decoding, png_encoding, rasterize, solid, well_formed,
};
use crate::scene::Scene;

verus! {

/// The initial pixel buffer of a render, once any background file has been read.
#[derive(Debug)]
pub enum Background {
    /// PNG bytes, whose decoded pixels become the buffer.
    Png(Vec<u8>),
    /// A fresh buffer of the given size, or of the scene's size when none is
    /// given, filled with `color` when one is given and transparent otherwise.
    Fill { size: Option<(u32, u32)>, color: Option<Rgba8> },
}

/// The dimensions of a filled buffer: the requested size, else the scene's.
pub open spec fn fill_dims(scene_size: (u32, u32), size: Option<(u32, u32)>) -> (u32, u32) {
    match size {
        Some(s) => s,
        None => scene_size,
    }
}

/// The premultiplied pixels of a filled buffer of the given dimensions.
pub open spec fn fill_pixels(dims: (u32, u32), color: Option<Rgba8>) -> Seq<u8> {
    let n = (4 * dims.0 * dims.1) as nat;
    match color {
        Some(c) => solid(fill_value(c), n),
        None => solid((0u8, 0u8, 0u8, 0u8), n),
    }
}

/// The size and premultiplied pixels of the buffer that a render starts from,
/// or nothing where the background cannot be decoded or allocated.
pub open spec fn initial_canvas(scene_size: (u32, u32), bg: Background) -> Option<
    ((u32, u32), Seq<u8>),
> {
    match bg {
        Background::Png(bytes) => png_decoding(bytes@),
        Background::Fill { size, color } => {
            let dims = fill_dims(scene_size, size);
            if allocatable(dims.0, dims.1) {
                Some((dims, fill_pixels(dims, color)))
            } else {
                None
            }
        },
    }
}

/// Whether `png` is the encoding of some buffer of the given dimensions.
pub open spec fn encodes_buffer_of_size(dims: (u32, u32), png: Seq<u8>) -> bool {
    exists|data: Seq<u8>|
        data.len() == 4 * dims.0 * dims.1 && #[trigger] png_encoding(dims, data) == Some(png)
}

/// A buffer of an explicit, allocatable size starts out as exactly that many
/// pixels: all fully transparent without a color; with an opaque color, every
/// pixel is that exact color; with a translucent one, every pixel keeps its alpha.
pub proof fn lemma_fill_canvas(scene_size: (u32, u32), width: u32, height: u32, color: Option<Rgba8>)
    requires
        allocatable(width, height),
    ensures
        ({
            let canvas = initial_canvas(
                scene_size,
                Background::Fill { size: Some((width, height)), color },
            );
            let data = canvas->Some_0.1;
            &&& canvas is Some
            &&& canvas->Some_0.0 == (width, height)
            &&& data.len() == 4 * width * height
            &&& color is None ==> forall|i: int| 0 <= i < data.len() ==> #[trigger] data[i] == 0
            &&& color is Some && color->Some_0.a == 255 ==> forall|i: int|
                0 <= i < data.len() ==> #[trigger] data[i] == channel(
                    (color->Some_0.r, color->Some_0.g, color->Some_0.b, color->Some_0.a),
                    i,
                )
            &&& color is Some ==> forall|i: int|
                0 <= i < data.len() && i % 4 == 3 ==> #[trigger] data[i] == color->Some_0.a
        }),
{
}

/// Builds the pixel buffer that a render starts from: decodes PNG bytes, or
/// allocates a buffer and fills it with the color, if any. A decoding failure
/// is `Decode` and an impossible size is `Allocation`.
pub fn prepare_canvas(scene: &Scene, bg: Background) -> (r: Result<tiny_skia::Pixmap, RenderError>)
    ensures
        r is Ok <==> initial_canvas(scene.size(), bg) is Some,
        r matches Ok(p) ==> initial_canvas(scene.size(), bg) == Some(
            (pixmap_size(p), pixmap_data(p)),
        ) && well_formed(p),
        r matches Err(e) ==> (bg is Png ==> e is Decode) && (bg is Fill ==> e is Allocation),
{
    match bg {
        Background::Png(bytes) => match decode_png(bytes.as_slice()) {
            Ok(p) => Ok(p),
            Err(msg) => Err(RenderError::Decode(msg)),
        },
        Background::Fill { size, color } => {
            let (width, height) = match size {
                Some(s) => s,
                None => scene.int_size(),
            };
            match new_pixmap(width, height) {
                None => Err(RenderError::Allocation),
                Some(mut p) => {
                    if let Some(c) = color {
                        fill_pixmap(&mut p, c);
                    }
                    proof {
                        assert(pixmap_data(p) =~= fill_pixels((width, height), color));
                    }
                    Ok(p)
                },
            }
        },
    }
}

/// Renders a scene onto its background with the given transform and encodes
/// the result as PNG.
///
/// Succeeds exactly where the initial buffer can be made; otherwise fails with
/// `Decode` for PNG bytes that do not decode and `Allocation` for a size that
/// cannot be held. On success the bytes are the PNG encoding of a buffer of
/// the initial size.
pub fn render(scene: &Scene, transform: tiny_skia::Transform, bg: Background) -> (r: Result<
    Vec<u8>,
    RenderError,
>)
    ensures
        r is Ok <==> initial_canvas(scene.size(), bg) is Some,
        r matches Err(e) ==> (bg is Png ==> e is Decode) && (bg is Fill ==> e is Allocation),
        r matches Ok(v) ==> encodes_buffer_of_size(initial_canvas(scene.size(), bg)->Some_0.0, v@),
{
    let mut p = match prepare_canvas(scene, bg) {
        Ok(p) => p,
        Err(e) => return Err(e),
    };
    rasterize(scene.usvg_tree(), transform, &mut p);
    match encode_png(&p) {
        Ok(v) => Ok(v),
        Err(msg) => Err(RenderError::Encode(msg)),
    }
}

/// What a render request led to: the encoded image, or the background file
/// that must be read before the render can go on.
#[derive(Debug)]
pub enum RenderOutcome {
    /// The PNG bytes of the rendered image.
    Encoded(Vec<u8>),
    /// The request is valid and names this background file; nothing has been
    /// decoded, allocated or rasterized yet.
    NeedsFile(String),
}

/// The background that valid in-memory inputs ask for.
pub open spec fn requested_background(
    bg_data: Option<Vec<u8>>,
    bg_size: Option<(u32, u32)>,
    bg_color: Option<Rgba8>,
) -> Background {
    match bg_data {
        Some(d) => Background::Png(d),
        None => Background::Fill { size: bg_size, color: bg_color },
    }
}

/// Handles a render request given as separate, possibly conflicting,
/// background inputs.
///
/// Contradictory inputs fail with `InvalidArguments` before any other work.
/// A valid request that names a file stops with `NeedsFile`, so that the
/// caller reads it and renders its bytes with `render`. Any other valid
/// request is rendered at once, with the outcome that `render` gives for the
/// requested background.
pub fn render_request(
    scene: &Scene,
    transform: tiny_skia::Transform,
    bg_file: Option<String>,
    bg_data: Option<Vec<u8>>,
    bg_size: Option<(u32, u32)>,
    bg_color: Option<Rgba8>,
) -> (r: Result<RenderOutcome, RenderError>)
    ensures
        r matches Err(RenderError::InvalidArguments(_)) <==> !legal_combination(
            bg_file is Some,
            bg_data is Some,
            bg_size is Some,
            bg_color is Some,
        ),
        r is Ok && r->Ok_0 is NeedsFile <==> legal_combination(
            bg_file is Some,
            bg_data is Some,
            bg_size is Some,
            bg_color is Some,
        ) && bg_file is Some,
        r matches Ok(RenderOutcome::NeedsFile(file)) ==> bg_file == Some(file),
        legal_combination(bg_file is Some, bg_data is Some, bg_size is Some, bg_color is Some)
            && bg_file is None ==> {
            let bg = requested_background(bg_data, bg_size, bg_color);
            &&& r is Ok <==> initial_canvas(scene.size(), bg) is Some
            &&& r matches Err(e) ==> (bg is Png ==> e is Decode) && (bg is Fill
                ==> e is Allocation)
            &&& r matches Ok(o) ==> o matches RenderOutcome::Encoded(v)
                && encodes_buffer_of_size(initial_canvas(scene.size(), bg)->Some_0.0, v@)
        },
{
    match select_background(bg_file, bg_data, bg_size, bg_color) {
        Err(e) => Err(e),
        Ok(BackgroundSpec::File(path)) => Ok(RenderOutcome::NeedsFile(path)),
        Ok(BackgroundSpec::Data(data)) => match render(scene, transform, Background::Png(data)) {
            Ok(v) => Ok(RenderOutcome::Encoded(v)),
            Err(e) => Err(e),
        },
        Ok(BackgroundSpec::Fill { size, color }) => match render(
            scene,
            transform,
            Background::Fill { size, color },
        ) {
            Ok(v) => Ok(RenderOutcome::Encoded(v)),
            Err(e) => Err(e),
        },
    }
}

} // verus!
