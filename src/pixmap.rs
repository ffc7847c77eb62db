use vstd::prelude::*;

use crate::background::Rgba8;

verus! {

#[verifier::external_type_specification]
#[verifier::external_body]
pub struct ExPixmap(tiny_skia::Pixmap);

#[verifier::external_type_specification]
#[verifier::external_body]
pub struct ExTransform(tiny_skia::Transform);

#[verifier::external_type_specification]
#[verifier::external_body]
pub struct ExTree(usvg::Tree);

/// Width and height of a pixmap, in pixels.
pub uninterp spec fn pixmap_size(p: tiny_skia::Pixmap) -> (u32, u32);

/// The pixels of a pixmap: premultiplied RGBA, four bytes per pixel, row by row.
pub uninterp spec fn pixmap_data(p: tiny_skia::Pixmap) -> Seq<u8>;

/// The premultiplied red, green and blue that tiny-skia stores when it fills
/// with a translucent straight RGBA color.
pub uninterp spec fn premultiplied_rgb(c: (u8, u8, u8, u8)) -> (u8, u8, u8);

/// The pixel that filling with a straight RGBA color stores: an opaque color
/// as it is; otherwise its premultiplied channels with the same alpha.
pub open spec fn fill_value(c: Rgba8) -> (u8, u8, u8, u8) {
    if c.a == 255 {
        (c.r, c.g, c.b, c.a)
    } else {
        let p = premultiplied_rgb((c.r, c.g, c.b, c.a));
        (p.0, p.1, p.2, c.a)
    }
}

/// What tiny-skia's PNG decoder makes of a byte string: the image size and
/// its premultiplied pixels, or nothing where it rejects the bytes.
pub uninterp spec fn png_decoding(bytes: Seq<u8>) -> Option<((u32, u32), Seq<u8>)>;

/// What tiny-skia's PNG encoder makes of a pixmap of the given size and
/// premultiplied pixels, or nothing where it fails.
pub uninterp spec fn png_encoding(size: (u32, u32), data: Seq<u8>) -> Option<Seq<u8>>;

/// Whether tiny-skia can hold a pixmap of these dimensions: both positive,
/// a row of at most `i32::MAX` bytes and the whole buffer addressable.
pub open spec fn allocatable(width: u32, height: u32) -> bool {
    &&& width > 0
    &&& height > 0
    &&& 4 * width <= i32::MAX
    &&& 4 * width * height <= usize::MAX
}

/// A pixmap whose buffer holds exactly four bytes for each of its pixels.
pub open spec fn well_formed(p: tiny_skia::Pixmap) -> bool {
    let (w, h) = pixmap_size(p);
    &&& allocatable(w, h)
    &&& pixmap_data(p).len() == 4 * w * h
}

/// Byte `i` of a buffer in which every pixel is `c`.
pub open spec fn channel(c: (u8, u8, u8, u8), i: int) -> u8 {
    if i % 4 == 0 {
        c.0
    } else if i % 4 == 1 {
        c.1
    } else if i % 4 == 2 {
        c.2
    } else {
        c.3
    }
}

/// The buffer of `n` bytes in which every pixel is `c`.
pub open spec fn solid(c: (u8, u8, u8, u8), n: nat) -> Seq<u8> {
    Seq::new(n, |i: int| channel(c, i))
}

/// Relies on tiny_skia::Pixmap::new: `None` unless the dimensions are
/// positive, a row fits in 31 bits and the length fits in usize; otherwise a
/// pixmap of that size filled with transparent black.
#[verifier::external_body]
pub(crate) fn new_pixmap(width: u32, height: u32) -> (r: Option<tiny_skia::Pixmap>)
    ensures
        r is Some <==> allocatable(width, height),
        r matches Some(p) ==> pixmap_size(p) == (width, height) && well_formed(p)
            && pixmap_data(p) == solid((0u8, 0u8, 0u8, 0u8), (4 * width * height) as nat),
{
    tiny_skia::Pixmap::new(width, height)
}

/// Relies on tiny_skia::Pixmap::fill with Color::from_rgba8: every pixel
/// becomes the premultiplied form of the color. The alpha channel is kept,
/// and an opaque color is stored as it is.
#[verifier::external_body]
pub(crate) fn fill_pixmap(p: &mut tiny_skia::Pixmap, c: Rgba8)
    ensures
        pixmap_size(*final(p)) == pixmap_size(*old(p)),
        c.a == 255 ==> pixmap_data(*final(p)) == solid(
            (c.r, c.g, c.b, c.a),
            pixmap_data(*old(p)).len(),
        ),
        c.a != 255 ==> pixmap_data(*final(p)) == solid(
            (
                premultiplied_rgb((c.r, c.g, c.b, c.a)).0,
                premultiplied_rgb((c.r, c.g, c.b, c.a)).1,
                premultiplied_rgb((c.r, c.g, c.b, c.a)).2,
                c.a,
            ),
            pixmap_data(*old(p)).len(),
        ),
{
    p.fill(tiny_skia::Color::from_rgba8(c.r, c.g, c.b, c.a))
}

/// Relies on tiny_skia::Pixmap::decode_png: the result depends on the bytes
/// alone, and a decoded pixmap has four bytes for each pixel.
#[verifier::external_body]
pub(crate) fn decode_png(data: &[u8]) -> (r: Result<tiny_skia::Pixmap, String>)
    ensures
        r is Ok <==> png_decoding(data@) is Some,
        r matches Ok(p) ==> png_decoding(data@) == Some((pixmap_size(p), pixmap_data(p)))
            && well_formed(p),
{
    tiny_skia::Pixmap::decode_png(data).map_err(|e| e.to_string())
}

/// Relies on tiny_skia::Pixmap::encode_png: the bytes depend on the size and
/// the pixels alone, and the encoder, which writes into memory, fails only on
/// a zero dimension or a buffer whose length does not match the size.
#[verifier::external_body]
pub(crate) fn encode_png(p: &tiny_skia::Pixmap) -> (r: Result<Vec<u8>, String>)
    ensures
        well_formed(*p) ==> r is Ok,
        r is Ok <==> png_encoding(pixmap_size(*p), pixmap_data(*p)) is Some,
        r matches Ok(v) ==> png_encoding(pixmap_size(*p), pixmap_data(*p)) == Some(v@),
{
    p.encode_png().map_err(|e| e.to_string())
}

/// Relies on resvg::render: the scene is painted into the pixmap's existing
/// buffer, whose size does not change.
#[verifier::external_body]
pub(crate) fn rasterize(tree: &usvg::Tree, transform: tiny_skia::Transform, p: &mut tiny_skia::Pixmap)
    ensures
        pixmap_size(*final(p)) == pixmap_size(*old(p)),
        pixmap_data(*final(p)).len() == pixmap_data(*old(p)).len(),
{
    resvg::render(tree, transform, &mut p.as_mut())
}

} // verus!
