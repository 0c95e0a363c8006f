//! Conversion of raw device buffers into RGB images.
//!
//! Every format has a spec function that gives the bytes of the image as a
//! sequence; `create_image_from_buffer` is proved to return exactly those.

use vstd::prelude::*;
use nokhwa::pixel_format::RgbFormat;
use nokhwa::utils::FrameFormat;
use nokhwa::Buffer;
use crate::color::{rgb_of, yuv_to_rgb, NEUTRAL_CHROMA};
use crate::frame::{PixelFormat, RawFrame, Resolution, RgbImage};

verus! {

/// The number of pixels that a YUYV buffer holds: two for each complete
/// group of four bytes. A trailing partial group holds none.
pub open spec fn yuyv_pixel_count(data: Seq<u8>) -> int {
    2 * (data.len() as int / 4)
}

/// Pixel `pixel` of a YUYV buffer. Its luma is the first or the third byte of
/// its group; the chroma pair, bytes two and four, is shared by both pixels.
pub open spec fn yuyv_pixel(data: Seq<u8>, pixel: int) -> Seq<u8> {
    let group = 4 * (pixel / 2);
    rgb_of(data[group + 2 * (pixel % 2)], data[group + 1], data[group + 3])
}

/// The RGB bytes of a YUYV buffer.
pub open spec fn yuyv_rgb(data: Seq<u8>) -> Seq<u8> {
    Seq::new((3 * yuyv_pixel_count(data)) as nat, |k: int| yuyv_pixel(data, k / 3)[k % 3])
}

/// Where the chroma pair of luma sample `i` starts in the chroma plane: each
/// two neighbouring luma samples share one pair.
pub open spec fn nv12_chroma_index(i: int) -> int {
    (i / 2) * 2
}

/// Pixel `i` of an NV12 buffer whose luma plane has `luma_len` bytes. A
/// sample whose chroma pair lies beyond the end of the buffer is shown
/// without colour.
pub open spec fn nv12_pixel(data: Seq<u8>, luma_len: int, i: int) -> Seq<u8> {
    let at = luma_len + nv12_chroma_index(i);
    if at + 1 < data.len() {
        rgb_of(data[i], data[at], data[at + 1])
    } else {
        rgb_of(data[i], NEUTRAL_CHROMA, NEUTRAL_CHROMA)
    }
}

/// The RGB bytes of an NV12 buffer: one pixel for each byte of the luma
/// plane.
pub open spec fn nv12_rgb(data: Seq<u8>, luma_len: int) -> Seq<u8> {
    Seq::new((3 * luma_len) as nat, |k: int| nv12_pixel(data, luma_len, k / 3)[k % 3])
}

/// The RGB bytes of a grayscale buffer: every byte three times.
pub open spec fn gray_rgb(data: Seq<u8>) -> Seq<u8> {
    Seq::new((3 * data.len()) as nat, |k: int| data[k / 3])
}

/// Whether a buffer of `len` bytes can back an RGB image of the given size,
/// in the arithmetic of the machine word.
pub open spec fn rgb_buffer_fits(resolution: Resolution, len: int) -> bool {
    &&& 3 * resolution.width <= usize::MAX
    &&& 3 * resolution.pixels() <= len
}

/// What the packed-RGB decoder makes of a buffer: the bytes themselves, if
/// there are enough of them for the claimed size.
pub open spec fn raw_rgb_bytes(resolution: Resolution, data: Seq<u8>) -> Option<Seq<u8>> {
    if rgb_buffer_fits(resolution, data.len() as int) {
        Some(data)
    } else {
        None
    }
}

/// The bytes of the image that a buffer decodes to, or `None` where decoding
/// fails. `jpeg` is what a JPEG decoder made of the buffer; only MJPEG
/// frames look at it.
pub open spec fn decoded_bytes(
    resolution: Resolution,
    data: Seq<u8>,
    format: PixelFormat,
    jpeg: Option<Seq<u8>>,
) -> Option<Seq<u8>> {
    match format {
        PixelFormat::Mjpeg => jpeg,
        PixelFormat::RawRgb => raw_rgb_bytes(resolution, data),
        PixelFormat::Yuyv => Some(yuyv_rgb(data)),
        PixelFormat::Nv12 => if resolution.pixels() <= data.len() {
            Some(nv12_rgb(data, resolution.pixels()))
        } else {
            None
        },
        PixelFormat::Gray => Some(gray_rgb(data)),
    }
}

/// Tells whether frames of this format need the JPEG decoder.
pub fn needs_jpeg_decoder(format: PixelFormat) -> (needed: bool)
    ensures
        needed == (format == PixelFormat::Mjpeg),
{
    format == PixelFormat::Mjpeg
}

/// The view of an optional byte vector.
pub open spec fn bytes_view(bytes: Option<Vec<u8>>) -> Option<Seq<u8>> {
    match bytes {
        Some(v) => Some(v@),
        None => None,
    }
}

/// A buffer that agrees with `whole` up to pixel `done` agrees with it up
/// to the next pixel once that pixel is added.
proof fn lemma_take_pixel(whole: Seq<u8>, done: int, pixel: Seq<u8>)
    requires
        0 <= done,
        3 * done + 3 <= whole.len(),
        pixel.len() == 3,
        whole[3 * done] == pixel[0],
        whole[3 * done + 1] == pixel[1],
        whole[3 * done + 2] == pixel[2],
    ensures
        whole.take(3 * done) + pixel == whole.take(3 * done + 3),
{
    assert(whole.take(3 * done) + pixel =~= whole.take(3 * done + 3));
}

/// Where the bytes of pixel `pixel` stand in the image of a YUYV buffer.
proof fn lemma_yuyv_rgb_at(data: Seq<u8>, pixel: int)
    requires
        0 <= pixel < yuyv_pixel_count(data),
    ensures
        yuyv_rgb(data).len() == 3 * yuyv_pixel_count(data),
        yuyv_rgb(data)[3 * pixel] == yuyv_pixel(data, pixel)[0],
        yuyv_rgb(data)[3 * pixel + 1] == yuyv_pixel(data, pixel)[1],
        yuyv_rgb(data)[3 * pixel + 2] == yuyv_pixel(data, pixel)[2],
{
    assert((3 * pixel) / 3 == pixel && (3 * pixel) % 3 == 0);
    assert((3 * pixel + 1) / 3 == pixel && (3 * pixel + 1) % 3 == 1);
    assert((3 * pixel + 2) / 3 == pixel && (3 * pixel + 2) % 3 == 2);
}

/// The two pixels of group `group` of a YUYV buffer.
proof fn lemma_yuyv_group(data: Seq<u8>, group: int)
    requires
        0 <= group,
    ensures
        yuyv_pixel(data, 2 * group) == rgb_of(
            data[4 * group],
            data[4 * group + 1],
            data[4 * group + 3],
        ),
        yuyv_pixel(data, 2 * group + 1) == rgb_of(
            data[4 * group + 2],
            data[4 * group + 1],
            data[4 * group + 3],
        ),
{
    assert((2 * group) / 2 == group && (2 * group) % 2 == 0);
    assert((2 * group + 1) / 2 == group && (2 * group + 1) % 2 == 1);
}

/// Where the bytes of pixel `i` stand in the image of an NV12 buffer.
proof fn lemma_nv12_rgb_at(data: Seq<u8>, luma_len: int, i: int)
    requires
        0 <= i < luma_len,
    ensures
        nv12_rgb(data, luma_len).len() == 3 * luma_len,
        nv12_rgb(data, luma_len)[3 * i] == nv12_pixel(data, luma_len, i)[0],
        nv12_rgb(data, luma_len)[3 * i + 1] == nv12_pixel(data, luma_len, i)[1],
        nv12_rgb(data, luma_len)[3 * i + 2] == nv12_pixel(data, luma_len, i)[2],
{
    assert((3 * i) / 3 == i && (3 * i) % 3 == 0);
    assert((3 * i + 1) / 3 == i && (3 * i + 1) % 3 == 1);
    assert((3 * i + 2) / 3 == i && (3 * i + 2) % 3 == 2);
}

/// Where the bytes of pixel `i` stand in the image of a grayscale buffer.
proof fn lemma_gray_rgb_at(data: Seq<u8>, i: int)
    requires
        0 <= i < data.len(),
    ensures
        gray_rgb(data).len() == 3 * data.len(),
        gray_rgb(data)[3 * i] == data[i],
        gray_rgb(data)[3 * i + 1] == data[i],
        gray_rgb(data)[3 * i + 2] == data[i],
{
    assert((3 * i) / 3 == i);
    assert((3 * i + 1) / 3 == i);
    assert((3 * i + 2) / 3 == i);
}

fn push_pixel(out: &mut Vec<u8>, rgb: [u8; 3])
    ensures
        final(out)@ == old(out)@ + rgb@,
{
    out.push(rgb[0]);
    out.push(rgb[1]);
    out.push(rgb[2]);
    assert(out@ =~= old(out)@ + rgb@);
}

fn convert_yuyv(data: &Vec<u8>) -> (out: Vec<u8>)
    ensures
        out@ == yuyv_rgb(data@),
{
    let groups: usize = data.len() / 4;
    let mut out: Vec<u8> = Vec::new();
    let mut g: usize = 0;
    assert(out@ =~= yuyv_rgb(data@).take(0));
    while g < groups
        invariant
            groups == data.len() / 4,
            g <= groups,
            yuyv_rgb(data@).len() == 6 * groups,
            out@ == yuyv_rgb(data@).take(3 * (2 * g)),
        decreases groups - g,
    {
        let base: usize = 4 * g;
        let u: u8 = data[base + 1];
        let v: u8 = data[base + 3];
        let first: [u8; 3] = yuv_to_rgb(data[base], u, v);
        let second: [u8; 3] = yuv_to_rgb(data[base + 2], u, v);
        proof {
            lemma_yuyv_group(data@, g as int);
            lemma_yuyv_rgb_at(data@, 2 * g);
            lemma_yuyv_rgb_at(data@, 2 * g + 1);
            lemma_take_pixel(yuyv_rgb(data@), 2 * g, first@);
            lemma_take_pixel(yuyv_rgb(data@), 2 * g + 1, second@);
        }
        push_pixel(&mut out, first);
        push_pixel(&mut out, second);
        g = g + 1;
    }
    assert(out@ =~= yuyv_rgb(data@));
    out
}

fn convert_nv12(data: &Vec<u8>, luma_len: usize) -> (out: Vec<u8>)
    requires
        luma_len <= data.len(),
    ensures
        out@ == nv12_rgb(data@, luma_len as int),
{
    let len: usize = data.len();
    let mut out: Vec<u8> = Vec::new();
    let mut i: usize = 0;
    assert(out@ =~= nv12_rgb(data@, luma_len as int).take(0));
    while i < luma_len
        invariant
            len == data.len(),
            luma_len <= len,
            i <= luma_len,
            nv12_rgb(data@, luma_len as int).len() == 3 * luma_len,
            out@ == nv12_rgb(data@, luma_len as int).take(3 * i),
        decreases luma_len - i,
    {
        let pair: usize = (i / 2) * 2;
        let rgb: [u8; 3] = if pair + 1 < len - luma_len {
            yuv_to_rgb(data[i], data[luma_len + pair], data[luma_len + pair + 1])
        } else {
            yuv_to_rgb(data[i], NEUTRAL_CHROMA, NEUTRAL_CHROMA)
        };
        proof {
            assert(rgb@ == nv12_pixel(data@, luma_len as int, i as int));
            lemma_nv12_rgb_at(data@, luma_len as int, i as int);
            lemma_take_pixel(nv12_rgb(data@, luma_len as int), i as int, rgb@);
        }
        push_pixel(&mut out, rgb);
        i = i + 1;
    }
    assert(out@ =~= nv12_rgb(data@, luma_len as int));
    out
}

fn convert_gray(data: &Vec<u8>) -> (out: Vec<u8>)
    ensures
        out@ == gray_rgb(data@),
{
    let len: usize = data.len();
    let mut out: Vec<u8> = Vec::new();
    let mut i: usize = 0;
    assert(out@ =~= gray_rgb(data@).take(0));
    while i < len
        invariant
            len == data.len(),
            i <= len,
            gray_rgb(data@).len() == 3 * len,
            out@ == gray_rgb(data@).take(3 * i),
        decreases len - i,
    {
        let level: u8 = data[i];
        let rgb: [u8; 3] = [level, level, level];
        proof {
            lemma_gray_rgb_at(data@, i as int);
            lemma_take_pixel(gray_rgb(data@), i as int, rgb@);
        }
        push_pixel(&mut out, rgb);
        i = i + 1;
    }
    assert(out@ =~= gray_rgb(data@));
    out
}

/// Whether `image` is the image of the given size over exactly `bytes`, or
/// no image where there are no bytes.
pub open spec fn image_is(
    image: Option<RgbImage>,
    resolution: Resolution,
    bytes: Option<Seq<u8>>,
) -> bool {
    match (image, bytes) {
        (Some(image), Some(bytes)) => {
            &&& image.width == resolution.width
            &&& image.height == resolution.height
            &&& image.data@ == bytes
        },
        (None, None) => true,
        _ => false,
    }
}

/// Runs nokhwa's `Buffer::decode_image` with its `RgbFormat` decoder on a
/// buffer tagged as raw RGB. That decoder copies the bytes and hands them to
/// `image::ImageBuffer::from_raw`, which takes them whole if they cover
/// `3 * width * height`, computed with checked multiplications, and refuses
/// them otherwise.
#[verifier::external_body]
fn decode_raw_rgb(resolution: Resolution, data: &Vec<u8>) -> (rgb: Option<Vec<u8>>)
    ensures
        bytes_view(rgb) == raw_rgb_bytes(resolution, data@),
{
    let size = nokhwa::utils::Resolution::new(resolution.width, resolution.height);
    Buffer::new(size, data, FrameFormat::RAWRGB)
        .decode_image::<RgbFormat>()
        .ok()
        .map(|image| image.into_raw())
}

/// Wraps decoded bytes into the image of a frame. The image claims the
/// frame's size whatever the number of bytes; `RgbImage::is_complete` tells
/// whether the two agree.
pub fn image_from_decoded(resolution: Resolution, decoded: Option<Vec<u8>>) -> (image: Option<
    RgbImage,
>)
    ensures
        image_is(image, resolution, bytes_view(decoded)),
{
    match decoded {
        Some(data) => Some(RgbImage { width: resolution.width, height: resolution.height, data }),
        None => None,
    }
}

/// Converts a raw buffer, read as `format`, into an RGB image.
///
/// YUYV, NV12 and grayscale buffers are converted here, and raw RGB goes
/// through nokhwa's decoder. An MJPEG frame cannot be decoded without the
/// risk of unwinding, so the caller runs the JPEG decoder and passes what it
/// produced as `jpeg`; for every other format `jpeg` is ignored.
///
/// YUYV and grayscale buffers of any length convert. An NV12 buffer fails
/// only if it is shorter than its luma plane, and otherwise yields one
/// pixel for every luma sample.
pub fn create_image_from_buffer(
    buffer: &RawFrame,
    format: PixelFormat,
    jpeg: Option<Vec<u8>>,
) -> (image: Option<RgbImage>)
    ensures
        image_is(
            image,
            buffer.resolution,
            decoded_bytes(buffer.resolution, buffer.data@, format, bytes_view(jpeg)),
        ),
        format == PixelFormat::Yuyv || format == PixelFormat::Gray ==> image is Some,
        format == PixelFormat::Yuyv ==> image->0.data@.len() == 3 * yuyv_pixel_count(buffer.data@),
        format == PixelFormat::Nv12 ==> (image is Some <==> buffer.resolution.pixels()
            <= buffer.data@.len()),
        format == PixelFormat::Nv12 && image is Some ==> image->0.fills_resolution(),
{
    let resolution: Resolution = buffer.resolution;
    match format {
        PixelFormat::Mjpeg => image_from_decoded(resolution, jpeg),
        PixelFormat::RawRgb => image_from_decoded(resolution, decode_raw_rgb(resolution, &buffer.data)),
        PixelFormat::Yuyv => image_from_decoded(resolution, Some(convert_yuyv(&buffer.data))),
        PixelFormat::Nv12 => {
            let luma_len: u64 = resolution.pixel_count();
            if luma_len <= buffer.data.len() as u64 {
                image_from_decoded(
                    resolution,
                    Some(convert_nv12(&buffer.data, luma_len as usize)),
                )
            } else {
                None
            }
        },
        PixelFormat::Gray => image_from_decoded(resolution, Some(convert_gray(&buffer.data))),
    }
}

/// The bytes of the image that can be shown for a frame: what the frame
/// decodes to by its own format, if that is exactly one pixel for each
/// position of the frame's size.
pub open spec fn renderable_bytes(frame: RawFrame, jpeg: Option<Seq<u8>>) -> Option<Seq<u8>> {
    match decoded_bytes(frame.resolution, frame.data@, frame.format, jpeg) {
        Some(bytes) => if bytes.len() == 3 * frame.resolution.pixels() {
            Some(bytes)
        } else {
            None
        },
        None => None,
    }
}

/// Decodes a frame by its own format and keeps the image only if it fills
/// the frame's size, as a renderer needs it.
pub fn renderable_image(frame: &RawFrame, jpeg: Option<Vec<u8>>) -> (image: Option<RgbImage>)
    ensures
        image_is(image, frame.resolution, renderable_bytes(*frame, bytes_view(jpeg))),
        image is Some ==> image->0.fills_resolution(),
{
    match create_image_from_buffer(frame, frame.format, jpeg) {
        Some(image) => if image.is_complete() {
            Some(image)
        } else {
            None
        },
        None => None,
    }
}

impl RawFrame {
    /// Converts the frame, read as the format it carries, into an RGB image.
    pub fn decode(&self, jpeg: Option<Vec<u8>>) -> (image: Option<RgbImage>)
        ensures
            image_is(
                image,
                self.resolution,
                decoded_bytes(self.resolution, self.data@, self.format, bytes_view(jpeg)),
            ),
    {
        create_image_from_buffer(self, self.format, jpeg)
    }
}

} // verus!
