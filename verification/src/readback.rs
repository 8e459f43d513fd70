//! The host-visible buffer after a dispatch: its size, its decoding as an
//! RGBA8 image and the PNG that is written out.

use vstd::prelude::*;
use crate::dispatch::{rgba8_len, Dispatch, DispatchError, DispatchRequest};

verus! {

/// An RGBA8 image as the `image` crate holds it: an `ImageBuffer` of
/// `Rgba<u8>` over a `Vec<u8>`. Its contents are known through
/// `buffer_bytes` and `buffer_extent` alone.
#[verifier::external_body]
pub struct RgbaImage {
    buffer: image::RgbaImage,
}

/// The bytes an image holds, row by row, four per texel.
pub uninterp spec fn buffer_bytes(image: RgbaImage) -> Seq<u8>;

/// The width and height an image was made with.
pub uninterp spec fn buffer_extent(image: RgbaImage) -> (u32, u32);

/// `ImageBuffer::from_raw` for RGBA8 over a `Vec<u8>`. It multiplies four
/// by the width and then by the height, each step checked against `usize`,
/// and succeeds exactly when neither step overflows and the container has
/// at least that many bytes. It then keeps the container as it is, beside
/// the two dimensions.
#[verifier::external_body]
fn buffer_from_raw(width: u32, height: u32, bytes: Vec<u8>) -> (made: Option<RgbaImage>)
    ensures
        made.is_some() <==> (4 * width <= usize::MAX && 4 * width * height <= usize::MAX && 4
            * width * height <= bytes@.len()),
        made.is_some() ==> buffer_bytes(made.unwrap()) == bytes@,
        made.is_some() ==> buffer_extent(made.unwrap()) == (width, height),
{
    match image::ImageBuffer::from_raw(width, height, bytes) {
        Some(buffer) => Some(RgbaImage { buffer }),
        None => None,
    }
}

/// The error type of the `image` crate.
#[verifier::external_type_specification]
#[verifier::external_body]
pub struct ExImageError(image::ImageError);

/// The PNG file that the encoder of the `image` crate, with its default
/// compression and filter, writes for an RGBA8 image of this width and
/// height with these bytes; `None` where it reports an error.
pub uninterp spec fn png_encoding(width: u32, height: u32, texels: Seq<u8>) -> Option<Seq<u8>>;

/// The bytes of an image that count as its texels: as many as its width and
/// height ask for, from the start of what it holds.
pub open spec fn texels(image: RgbaImage) -> Seq<u8> {
    buffer_bytes(image).subrange(0, rgba8_len(buffer_extent(image).0, buffer_extent(image).1))
}

/// `ImageBuffer::write_with_encoder` with a `PngEncoder` over a `Vec<u8>`:
/// the encoder is handed the image's width, height and texels, and what it
/// wrote is returned, or its error.
#[verifier::external_body]
fn buffer_to_png(image: &RgbaImage) -> (written: Result<Vec<u8>, image::ImageError>)
    ensures
        written.is_ok() ==> png_encoding(
            buffer_extent(*image).0,
            buffer_extent(*image).1,
            texels(*image),
        ) == Some(written.unwrap()@),
        written.is_err() ==> png_encoding(
            buffer_extent(*image).0,
            buffer_extent(*image).1,
            texels(*image),
        ).is_none(),
{
    let mut out: Vec<u8> = Vec::new();
    match image.buffer.write_with_encoder(image::codecs::png::PngEncoder::new(&mut out)) {
        Ok(()) => Ok(out),
        Err(e) => Err(e),
    }
}

/// `ImageBuffer::into_raw`: the container the image was made from.
#[verifier::external_body]
fn buffer_into_raw(image: RgbaImage) -> (bytes: Vec<u8>)
    ensures
        bytes@ == buffer_bytes(image),
{
    image.buffer.into_raw()
}

impl RgbaImage {
    /// The width and height of the image.
    pub open spec fn extent(self) -> (u32, u32) {
        buffer_extent(self)
    }

    /// The bytes of the image, row by row, four per texel.
    pub open spec fn bytes(self) -> Seq<u8> {
        buffer_bytes(self)
    }

    /// Gives the bytes of the image back.
    pub fn into_bytes(self) -> (bytes: Vec<u8>)
        ensures
            bytes@ == self.bytes(),
    {
        buffer_into_raw(self)
    }
}

/// A buffer of `len` bytes can be decoded as a `width` by `height` RGBA8
/// image: it has exactly four bytes per texel, and the bytes of one row fit
/// in `usize`. The second part is implied by the first for every image with
/// a texel; it rules out only an image without rows that is wider than a
/// quarter of the address space.
pub open spec fn decodable(width: u32, height: u32, len: nat) -> bool {
    &&& len == rgba8_len(width, height)
    &&& 4 * width <= usize::MAX
}

/// What decoding a buffer as a `width` by `height` RGBA8 image gives: the
/// same bytes, under the same width and height.
pub open spec fn decodes_to(width: u32, height: u32, bytes: Seq<u8>, image: RgbaImage) -> bool {
    &&& decodable(width, height, bytes.len())
    &&& image.bytes() == bytes
    &&& image.extent() == (width, height)
}

/// Decodes what was read back as a `width` by `height` RGBA8 image. A buffer
/// that is shorter or longer than four bytes per texel is rejected, never cut
/// or filled up; so is an image whose row would not fit in `usize`.
pub fn decode(width: u32, height: u32, bytes: Vec<u8>) -> (r: Result<RgbaImage, DispatchError>)
    ensures
        match r {
            Ok(image) => decodes_to(width, height, bytes@, image),
            Err(e) => e == DispatchError::DecodeFailed && !decodable(width, height, bytes@.len()),
        },
{
    match crate::dispatch::readback_len(width, height) {
        None => {
            assert(bytes@.len() == bytes.len());
            Err(DispatchError::DecodeFailed)
        },
        Some(len) => {
            if bytes.len() != len {
                return Err(DispatchError::DecodeFailed);
            }
            match buffer_from_raw(width, height, bytes) {
                Some(image) => Ok(image),
                None => Err(DispatchError::DecodeFailed),
            }
        },
    }
}

/// The PNG file for an image, or `EncodeFailed`.
pub open spec fn png_of(image: RgbaImage) -> Result<Seq<u8>, DispatchError> {
    match png_encoding(image.extent().0, image.extent().1, texels(image)) {
        Some(file) => Ok(file),
        None => Err(DispatchError::EncodeFailed),
    }
}

/// Says what `encode` returns for each outcome of the encoder.
pub fn encoded(outcome: Result<Vec<u8>, image::ImageError>) -> (r: Result<Vec<u8>, DispatchError>)
    ensures
        match r {
            Ok(file) => outcome matches Ok(written) && file@ == written@,
            Err(e) => e == DispatchError::EncodeFailed && outcome is Err,
        },
{
    match outcome {
        Ok(written) => Ok(written),
        Err(_) => Err(DispatchError::EncodeFailed),
    }
}

/// Encodes an image as a PNG file in memory.
pub fn encode(image: &RgbaImage) -> (r: Result<Vec<u8>, DispatchError>)
    ensures
        match r {
            Ok(file) => png_of(*image) == Ok::<Seq<u8>, DispatchError>(file@),
            Err(e) => png_of(*image) == Err::<Seq<u8>, DispatchError>(e),
        },
{
    encoded(buffer_to_png(image))
}

/// The PNG file for a buffer read back from a `width` by `height` dispatch:
/// `DecodeFailed` unless the buffer can be decoded, then whatever the
/// encoder makes of it.
pub open spec fn png_of_readback(width: u32, height: u32, bytes: Seq<u8>) -> Result<
    Seq<u8>,
    DispatchError,
> {
    if !decodable(width, height, bytes.len()) {
        Err(DispatchError::DecodeFailed)
    } else {
        match png_encoding(width, height, bytes) {
            Some(file) => Ok(file),
            None => Err(DispatchError::EncodeFailed),
        }
    }
}

/// Decodes the buffer and encodes the image, all in memory: nothing of a
/// file exists until both have succeeded.
pub fn render_png(width: u32, height: u32, bytes: Vec<u8>) -> (r: Result<Vec<u8>, DispatchError>)
    ensures
        match r {
            Ok(file) => png_of_readback(width, height, bytes@) == Ok::<Seq<u8>, DispatchError>(
                file@,
            ),
            Err(e) => png_of_readback(width, height, bytes@) == Err::<Seq<u8>, DispatchError>(e),
        },
{
    match decode(width, height, bytes) {
        Err(e) => Err(e),
        Ok(image) => {
            assert(texels(image) =~= bytes@);
            encode(&image)
        },
    }
}

impl Dispatch {
    /// The stage that follows `self` once the buffer holding `bytes` was
    /// read: in `AwaitingReadback`, the write if the bytes decode and encode,
    /// else the failure; in any other stage, `self`.
    pub open spec fn after_readback(self, bytes: Seq<u8>) -> Dispatch {
        match self {
            Dispatch::AwaitingReadback(plan) => match png_of_readback(
                plan.width,
                plan.height,
                bytes,
            ) {
                Ok(_) => Dispatch::AwaitingWrite(plan),
                Err(e) => Dispatch::Failed(e),
            },
            _ => self,
        }
    }

    /// The file to write after the buffer holding `bytes` was read, if any.
    pub open spec fn file_after_readback(self, bytes: Seq<u8>) -> Option<Seq<u8>> {
        match self {
            Dispatch::AwaitingReadback(plan) => match png_of_readback(
                plan.width,
                plan.height,
                bytes,
            ) {
                Ok(file) => Some(file),
                Err(_) => None,
            },
            _ => None,
        }
    }

    /// Takes the bytes of the mapped buffer. Where the dispatch awaits them
    /// and they decode and encode, the file to write comes back with the
    /// stage that asks for the write; else no file comes back.
    pub fn read_back(self, bytes: Vec<u8>) -> (r: (Dispatch, Option<Vec<u8>>))
        ensures
            r.0 == self.after_readback(bytes@),
            match r.1 {
                Some(file) => self.file_after_readback(bytes@) == Some(file@),
                None => self.file_after_readback(bytes@).is_none(),
            },
    {
        match self {
            Dispatch::AwaitingReadback(plan) => match render_png(plan.width, plan.height, bytes) {
                Ok(file) => (Dispatch::AwaitingWrite(plan), Some(file)),
                Err(e) => (Dispatch::Failed(e), None),
            },
            _ => (self, None),
        }
    }
}

/// A file is handed out exactly when the stage after the readback asks for
/// the write: the buffer was awaited, had four bytes per texel and was
/// encoded. A failed decoding or encoding leaves nothing to write.
pub proof fn lemma_file_only_after_encoding(stage: Dispatch, bytes: Seq<u8>)
    requires
        !(stage is AwaitingWrite),
    ensures
        stage.file_after_readback(bytes).is_some() <==> stage.after_readback(bytes).pending()
            == DispatchRequest::WriteFile,
        stage.file_after_readback(bytes).is_some() ==> stage is AwaitingReadback && bytes.len()
            == rgba8_len(stage->AwaitingReadback_0.width, stage->AwaitingReadback_0.height),
{
}

/// For an image with a texel whose bytes fit in `usize`, a buffer can be
/// decoded exactly when it has four bytes per texel: a shorter or longer one
/// is rejected, and one of the right length never is.
pub proof fn lemma_length_decides_decoding(width: u32, height: u32, len: nat)
    requires
        width > 0,
        height > 0,
        rgba8_len(width, height) <= usize::MAX,
    ensures
        decodable(width, height, len) <==> len == 4 * width * height,
{
    assert(4 * width <= 4 * width * height) by (nonlinear_arith)
        requires
            width > 0,
            height > 0,
    ;
}

} // verus!
