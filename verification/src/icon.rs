use vstd::prelude::*;

verus! {

/// Why the tray icon could not be made from the image bytes.
#[derive(Clone, Copy, Debug, PartialEq, Eq, Structural)]
pub enum IconError {
    /// The bytes are not an image in a format that the decoder recognizes
    /// by its magic bytes and decodes.
    Decode,
}

/// The 8-bit RGBA pixels (row by row), the width and the height of the image
/// that `bytes` encode, or `None` where the bytes do not start with the magic
/// bytes of a format that the `image` crate has built in, or do not decode in
/// that format under the crate's default limits.
pub uninterp spec fn decoded_rgba(bytes: Seq<u8>) -> Option<(Seq<u8>, u32, u32)>;

/// Decodes an encoded image into RGBA pixels with `image::guess_format` (the
/// built-in table of magic bytes), `image::load_from_memory_with_format`
/// (a reader with that built-in format and default limits) and
/// `DynamicImage::to_rgba8`. Neither call consults the crate's registries of
/// format-detection or decoding hooks, so the result depends on the bytes
/// alone.
///
/// Trusted: the result is `decoded_rgba(bytes)`, and a decoded image has four
/// bytes per pixel (the decoders fill a buffer of width times height times
/// channels bytes, and `to_rgba8` clones it or makes one with
/// `ImageBuffer::new`).
#[verifier::external_body]
fn decode_rgba(bytes: &[u8]) -> (r: Result<(Vec<u8>, u32, u32), IconError>)
    ensures
        r is Ok <==> decoded_rgba(bytes@) is Some,
        r matches Ok(t) ==> decoded_rgba(bytes@) == Some((t.0@, t.1, t.2)),
        r matches Ok(t) ==> t.0@.len() == 4 * t.1 * t.2,
{
    let decoded = match image::guess_format(bytes) {
        Ok(format) => image::load_from_memory_with_format(bytes, format),
        Err(e) => Err(e),
    };
    match decoded {
        Ok(img) => Ok((img.to_rgba8().into_raw(), img.width(), img.height())),
        Err(_) => Err(IconError::Decode),
    }
}

/// The tray icon's pixels: RGBA, four bytes per pixel, row by row.
pub struct IconImage {
    pub rgba: Vec<u8>,
    pub width: u32,
    pub height: u32,
}

/// The icon whose pixels a decoding produced.
pub open spec fn icon_matches(icon: IconImage, pixels: (Seq<u8>, u32, u32)) -> bool {
    &&& icon.rgba@ == pixels.0
    &&& icon.width == pixels.1
    &&& icon.height == pixels.2
}

/// Packs a decoding result into the tray icon's pixels; a failure stays the
/// same failure.
pub fn icon_from_decoded(decoded: Result<(Vec<u8>, u32, u32), IconError>) -> (r: Result<
    IconImage,
    IconError,
>)
    ensures
        r is Ok <==> decoded is Ok,
        decoded matches Ok(t) ==> r matches Ok(icon) && icon_matches(icon, (t.0@, t.1, t.2)),
        decoded matches Err(e) ==> r == Err::<IconImage, IconError>(e),
{
    match decoded {
        Ok((rgba, width, height)) => Ok(IconImage { rgba, width, height }),
        Err(e) => Err(e),
    }
}

/// The tray icon from the bytes of an encoded image: it succeeds exactly when
/// the bytes decode, and then holds the decoded pixels, four bytes for each
/// of the width times height pixels; otherwise it fails with `Decode`.
pub fn get_icon(bytes: &[u8]) -> (r: Result<IconImage, IconError>)
    ensures
        r is Ok <==> decoded_rgba(bytes@) is Some,
        r is Err ==> r == Err::<IconImage, IconError>(IconError::Decode),
        r matches Ok(icon) ==> decoded_rgba(bytes@) == Some((icon.rgba@, icon.width, icon.height)),
        r matches Ok(icon) ==> icon.rgba@.len() == 4 * icon.width * icon.height,
{
    icon_from_decoded(decode_rgba(bytes))
}

} // verus!
