use vstd::prelude::*;
use crate::message::{AudioFrame, BroadcastMode, BroadcastSource, VideoCodec, VideoFrame};

verus! {

#[verifier::external_type_specification]
#[verifier::external_body]
pub struct ExImageError(image::ImageError);

/// The JPEG the `image` crate makes of an RGB buffer at a quality.
pub uninterp spec fn jpeg_encoded(rgb: Seq<u8>, width: u32, height: u32, quality: u8) -> Seq<u8>;


/// Relies on `image::codecs::jpeg::JpegEncoder::encode` (with
/// `new_with_quality`, which clamps the quality to 1..=100): the JPEG of an
/// RGB buffer, a function of its arguments. It panics unless the buffer holds
/// exactly `width * height` pixels, fails for a side over 65535, and otherwise
/// succeeds: its only other failures are write errors, which a `Vec` never gives.
#[verifier::external_body]
fn encode_jpeg(rgb: &Vec<u8>, width: u32, height: u32, quality: u8) -> (r: Result<
    Vec<u8>,
    image::ImageError,
>)
    requires
        rgb@.len() == width * height * 3,
    ensures
        r matches Ok(b) ==> b@ == jpeg_encoded(rgb@, width, height, quality),
        width > 65535 || height > 65535 ==> r is Err,
        width <= 65535 && height <= 65535 ==> r is Ok,
{
    let mut out = Vec::new();
    image::codecs::jpeg::JpegEncoder::new_with_quality(&mut out, quality).encode(
        rgb,
        width,
        height,
        image::ColorType::Rgb8,
    )?;
    Ok(out)
}

/// Relies on `image::load_from_memory` followed by `to_rgb8` and
/// `into_raw`: an image file decoded to RGB bytes, three per pixel, with its
/// width and height. The pixel values may differ between machines (the JPEG
/// decoder picks SIMD paths by CPU features), so nothing more is stated.
#[verifier::external_body]
fn decode_image(data: &Vec<u8>) -> (r: Result<(Vec<u8>, u32, u32), image::ImageError>)
    ensures
        (r matches Ok((rgb, w, h)) ==> rgb@.len() == w * h * 3),
{
    let rgb = image::load_from_memory(data)?.to_rgb8();
    let (w, h) = (rgb.width(), rgb.height());
    Ok((rgb.into_raw(), w, h))
}

/// Why a captured screen could not be made into a frame.
#[derive(Debug, Clone, Copy, PartialEq, Eq, Structural)]
pub enum CaptureError {
    /// The pixel buffer does not hold `width * height` pixels.
    SizeMismatch,
    /// The JPEG encoder failed.
    Encode,
}

/// Why a received frame could not be shown.
#[derive(Debug, Clone, Copy, PartialEq, Eq, Structural)]
pub enum DecodeError {
    /// The image decoder failed.
    Image,
}

/// The RGB bytes of a BGRA buffer, whole pixels only.
pub open spec fn rgb_of_bgra(raw: Seq<u8>) -> Seq<u8> {
    Seq::new(
        (raw.len() / 4 * 3) as nat,
        |j: int|
            {
                let p = j / 3;
                let c = j % 3;
                raw[4 * p + 2 - c]
            },
    )
}

/// The `0x00RRGGBB` value of a pixel.
pub open spec fn pixel_value(r: u8, g: u8, b: u8) -> u32 {
    (r * 65536 + g * 256 + b) as u32
}

/// The pixels of a buffer of `step`-byte pixels whose red, green and blue
/// bytes stand at `ri`, `gi` and `bi`; a partial pixel at the end is dropped.
pub open spec fn packed_pixels(data: Seq<u8>, step: int, ri: int, gi: int, bi: int) -> Seq<u32> {
    Seq::new(
        ((data.len() as int) / step) as nat,
        |p: int| pixel_value(data[step * p + ri], data[step * p + gi], data[step * p + bi]),
    )
}

/// Converts captured BGRA pixels to RGB, dropping a partial pixel at the end.
pub fn bgra_to_rgb(raw: &Vec<u8>) -> (r: Vec<u8>)
    ensures
        r@ == rgb_of_bgra(raw@),
{
    let len = raw.len();
    let n = len / 4;
    let mut r: Vec<u8> = Vec::new();
    let mut p: usize = 0;
    while p < n
        invariant
            len == raw@.len(),
            n == raw@.len() / 4,
            p <= n,
            r@.len() == 3 * p,
            forall|j: int| 0 <= j < 3 * p ==> r@[j] == rgb_of_bgra(raw@)[j],
        decreases n - p,
    {
        assert(4 * p + 4 <= len) by (nonlinear_arith)
            requires p < n, n == len / 4;
        r.push(raw[4 * p + 2]);
        r.push(raw[4 * p + 1]);
        r.push(raw[4 * p]);
        proof {
            assert forall|j: int| 3 * p <= j < 3 * p + 3 implies r@[j] == rgb_of_bgra(raw@)[j] by {
                assert(j / 3 == p as int) by (nonlinear_arith)
                    requires 3 * p <= j < 3 * p + 3;
                assert(j % 3 == j - 3 * p) by (nonlinear_arith)
                    requires 3 * p <= j < 3 * p + 3;
            }
        }
        p = p + 1;
    }
    assert(r@ =~= rgb_of_bgra(raw@));
    r
}

/// Packs pixels of `step` bytes into `0x00RRGGBB` values.
fn pack_pixels(data: &Vec<u8>, step: usize, ri: usize, gi: usize, bi: usize) -> (r: Vec<u32>)
    requires
        step == 3 || step == 4,
        ri < step,
        gi < step,
        bi < step,
    ensures
        r@ == packed_pixels(data@, step as int, ri as int, gi as int, bi as int),
{
    let len = data.len();
    let n = len / step;
    let mut r: Vec<u32> = Vec::with_capacity(n);
    let mut p: usize = 0;
    while p < n
        invariant
            len == data@.len(),
            step == 3 || step == 4,
            ri < step,
            gi < step,
            bi < step,
            n == (data@.len() as int) / (step as int),
            p <= n,
            r@ =~= packed_pixels(data@, step as int, ri as int, gi as int, bi as int).subrange(
                0,
                p as int,
            ),
        decreases n - p,
    {
        assert(step * p + step <= len) by (nonlinear_arith)
            requires p < n, n == (len as int) / (step as int), step > 0;
        let base = step * p;
        let red = data[base + ri] as u32;
        let green = data[base + gi] as u32;
        let blue = data[base + bi] as u32;
        r.push(red * 65536 + green * 256 + blue);
        p = p + 1;
    }
    r
}

/// The pixels of an RGB buffer, as `0x00RRGGBB` values.
pub fn rgb_to_u32(rgb: &Vec<u8>) -> (r: Vec<u32>)
    ensures
        r@ == packed_pixels(rgb@, 3, 0, 1, 2),
{
    pack_pixels(rgb, 3, 0, 1, 2)
}

/// The pixels of a BGRA buffer, as `0x00RRGGBB` values.
pub fn bgra_to_u32(data: &Vec<u8>) -> (r: Vec<u32>)
    ensures
        r@ == packed_pixels(data@, 4, 2, 1, 0),
{
    pack_pixels(data, 4, 2, 1, 0)
}

/// Packs decoded RGB bytes of a `w` by `h` image into `0x00RRGGBB` pixels.
pub fn pixels_from_rgb(rgb: &Vec<u8>, w: u32, h: u32) -> (r: (Vec<u32>, usize, usize))
    ensures
        r.0@ == packed_pixels(rgb@, 3, 0, 1, 2),
        r.1 == w,
        r.2 == h,
{
    (rgb_to_u32(rgb), w as usize, h as usize)
}

/// Decodes a received frame into `0x00RRGGBB` pixels with its width and height.
/// Raw BGRA frames are unpacked exactly; a JPEG frame is decoded by the image
/// decoder, and what it yields, one pixel per position, is packed.
pub fn decode_frame(frame: &VideoFrame) -> (r: Result<(Vec<u32>, usize, usize), DecodeError>)
    ensures
        frame.codec == VideoCodec::Bgra ==> (r matches Ok((px, w, h)) && px@ == packed_pixels(
            frame.data@,
            4,
            2,
            1,
            0,
        ) && w == frame.width && h == frame.height),
        frame.codec == VideoCodec::Jpeg ==> (r matches Ok((px, w, h)) ==> px@.len() == w * h),
{
    match frame.codec {
        VideoCodec::Jpeg => match decode_image(&frame.data) {
            Ok((rgb, w, h)) => {
                assert((rgb@.len() as int) / 3 == (w as int) * (h as int)) by (nonlinear_arith)
                    requires rgb@.len() == w * h * 3;
                Ok(pixels_from_rgb(&rgb, w, h))
            },
            Err(_) => Err(DecodeError::Image),
        },
        VideoCodec::Bgra => Ok((bgra_to_u32(&frame.data), frame.width as usize, frame.height as usize)),
    }
}

/// JPEG-encodes a captured BGRA screen of `width` by `height` pixels.
pub fn encode_capture(raw: &Vec<u8>, width: u32, height: u32, quality: u8) -> (r: Result<
    Vec<u8>,
    CaptureError,
>)
    ensures
        rgb_of_bgra(raw@).len() != width * height * 3 ==> r == Err::<Vec<u8>, CaptureError>(
            CaptureError::SizeMismatch,
        ),
        rgb_of_bgra(raw@).len() == width * height * 3 && (width > 65535 || height > 65535)
            ==> r == Err::<Vec<u8>, CaptureError>(CaptureError::Encode),
        rgb_of_bgra(raw@).len() == width * height * 3 && width <= 65535 && height <= 65535
            ==> (r matches Ok(b) && b@ == jpeg_encoded(rgb_of_bgra(raw@), width, height, quality)),
{
    let rgb = bgra_to_rgb(raw);
    let w = width as u128;
    let h = height as u128;
    assert(w * h * 3 <= 0xffff_ffff * 0xffff_ffff * 3) by (nonlinear_arith)
        requires w <= 0xffff_ffff, h <= 0xffff_ffff;
    let expected: u128 = w * h * 3;
    if rgb.len() as u128 != expected {
        return Err(CaptureError::SizeMismatch);
    }
    match encode_jpeg(&rgb, width, height, quality) {
        Ok(b) => Ok(b),
        Err(_) => Err(CaptureError::Encode),
    }
}

/// A frame of the teacher's screen.
pub fn teacher_frame(
    frame_id: u64,
    timestamp_ms: u64,
    mode: BroadcastMode,
    width: u32,
    height: u32,
    jpeg: Vec<u8>,
) -> (r: VideoFrame)
    ensures
        r == (VideoFrame {
            frame_id,
            timestamp_ms,
            source: BroadcastSource::Teacher,
            codec: VideoCodec::Jpeg,
            width,
            height,
            fullscreen: mode == BroadcastMode::Fullscreen,
            data: jpeg,
        }),
{
    VideoFrame {
        frame_id,
        timestamp_ms,
        source: BroadcastSource::Teacher,
        codec: VideoCodec::Jpeg,
        width,
        height,
        fullscreen: mode == BroadcastMode::Fullscreen,
        data: jpeg,
    }
}

/// A frame of a student's shared screen, always meant for fullscreen.
pub fn student_frame(
    frame_id: u64,
    timestamp_ms: u64,
    student_id: String,
    student_name: String,
    width: u32,
    height: u32,
    jpeg: Vec<u8>,
) -> (r: VideoFrame)
    ensures
        r == (VideoFrame {
            frame_id,
            timestamp_ms,
            source: BroadcastSource::Student { student_id, student_name: Some(student_name) },
            codec: VideoCodec::Jpeg,
            width,
            height,
            fullscreen: true,
            data: jpeg,
        }),
{
    VideoFrame {
        frame_id,
        timestamp_ms,
        source: BroadcastSource::Student { student_id, student_name: Some(student_name) },
        codec: VideoCodec::Jpeg,
        width,
        height,
        fullscreen: true,
        data: jpeg,
    }
}

/// The unsigned 16-bit pattern of a sample.
pub open spec fn sample_bits(s: i16) -> int {
    if s < 0 {
        s + 65536
    } else {
        s as int
    }
}

/// Samples as little-endian bytes.
pub open spec fn le_samples(s: Seq<i16>) -> Seq<u8> {
    Seq::new(
        2 * s.len(),
        |j: int|
            if j % 2 == 0 {
                (sample_bits(s[j / 2]) % 256) as u8
            } else {
                (sample_bits(s[j / 2]) / 256) as u8
            },
    )
}

/// The sample two little-endian bytes spell.
pub open spec fn sample_of(lo: u8, hi: u8) -> i16 {
    let v = lo + 256 * hi;
    if v >= 32768 {
        (v - 65536) as i16
    } else {
        v as i16
    }
}

/// The samples in little-endian bytes, a trailing odd byte dropped.
pub open spec fn samples_of(b: Seq<u8>) -> Seq<i16> {
    Seq::new(b.len() / 2, |k: int| sample_of(b[2 * k], b[2 * k + 1]))
}

/// Writes samples as little-endian bytes.
pub fn samples_to_le(s: &[i16]) -> (r: Vec<u8>)
    ensures
        r@ == le_samples(s@),
{
    let mut r: Vec<u8> = Vec::new();
    let mut k: usize = 0;
    while k < s.len()
        invariant
            k <= s@.len(),
            r@.len() == 2 * k,
            forall|j: int| 0 <= j < 2 * k ==> r@[j] == le_samples(s@)[j],
        decreases s@.len() - k,
    {
        let v = s[k];
        let bits: u32 = if v < 0 {
            (v as i32 + 65536) as u32
        } else {
            v as u32
        };
        r.push((bits % 256) as u8);
        r.push((bits / 256) as u8);
        proof {
            assert forall|j: int| 2 * k <= j < 2 * k + 2 implies r@[j] == le_samples(s@)[j] by {
                assert(j / 2 == k as int);
            }
        }
        k = k + 1;
    }
    assert(r@ =~= le_samples(s@));
    r
}

/// Reads little-endian bytes as samples, dropping a trailing odd byte.
pub fn le_to_samples(b: &Vec<u8>) -> (r: Vec<i16>)
    ensures
        r@ == samples_of(b@),
{
    let len = b.len();
    let n = len / 2;
    let mut r: Vec<i16> = Vec::with_capacity(n);
    let mut k: usize = 0;
    while k < n
        invariant
            len == b@.len(),
            n == b@.len() / 2,
            k <= n,
            r@ =~= samples_of(b@).subrange(0, k as int),
        decreases n - k,
    {
        assert(2 * k + 2 <= len);
        let v: u32 = b[2 * k] as u32 + 256 * (b[2 * k + 1] as u32);
        let s: i16 = if v >= 32768 {
            (v as i32 - 65536) as i16
        } else {
            v as i16
        };
        r.push(s);
        k = k + 1;
    }
    r
}

/// How many samples make one audio packet of about 20 ms: a fiftieth of the
/// rate (at least 1) per channel.
pub fn packet_samples(sample_rate: u32, channels: u16) -> (r: u64)
    ensures
        r == (if sample_rate / 50 < 1 {
            1
        } else {
            sample_rate / 50
        }) * channels,
{
    let per_channel: u64 = if sample_rate / 50 < 1 {
        1
    } else {
        (sample_rate / 50) as u64
    };
    assert(per_channel * channels <= 0xffff_ffff * 0xffff) by (nonlinear_arith)
        requires per_channel <= 0xffff_ffff, channels <= 0xffff;
    per_channel * channels as u64
}

/// Cuts captured samples into packets of a fixed number of samples, keeping
/// what is left over for the next call.
pub struct AudioPacketizer {
    pending: Vec<i16>,
    frame_samples: usize,
}

impl AudioPacketizer {
    pub closed spec fn pending(&self) -> Seq<i16> {
        self.pending@
    }

    pub closed spec fn frame_samples(&self) -> nat {
        self.frame_samples as nat
    }

    pub closed spec fn wf(&self) -> bool {
        &&& self.frame_samples > 0
        &&& self.pending@.len() < self.frame_samples
    }

    pub fn new(frame_samples: usize) -> (r: Self)
        requires
            frame_samples > 0,
        ensures
            r.wf(),
            r.pending() == Seq::<i16>::empty(),
            r.frame_samples() == frame_samples,
    {
        AudioPacketizer { pending: Vec::new(), frame_samples }
    }

    /// Takes in `data` and returns the packets it completes, as little-endian
    /// bytes, oldest first.
    pub fn push(&mut self, data: &[i16]) -> (r: Vec<Vec<u8>>)
        requires
            old(self).wf(),
            old(self).pending().len() + data@.len() <= usize::MAX,
        ensures
            final(self).wf(),
            final(self).frame_samples() == old(self).frame_samples(),
            ({
                let all = old(self).pending() + data@;
                let f = old(self).frame_samples() as int;
                &&& r@.len() == (all.len() as int) / f
                &&& final(self).pending() == all.subrange(r@.len() * f, all.len() as int)
                &&& forall|k: int|
                    0 <= k < r@.len() ==> (#[trigger] r@[k])@ == le_samples(
                        all.subrange(k * f, (k + 1) * f),
                    )
            }),
    {
        let ghost all = self.pending@ + data@;
        let mut buf: Vec<i16> = Vec::new();
        std::mem::swap(&mut buf, &mut self.pending);
        let mut i: usize = 0;
        while i < data.len()
            invariant
                i <= data@.len(),
                buf@ == old(self).pending() + data@.subrange(0, i as int),
            decreases data@.len() - i,
        {
            buf.push(data[i]);
            i = i + 1;
            assert(buf@ =~= old(self).pending() + data@.subrange(0, i as int));
        }
        assert(data@.subrange(0, data@.len() as int) =~= data@);
        let f = self.frame_samples;
        let mut out: Vec<Vec<u8>> = Vec::new();
        let mut start: usize = 0;
        assert(out@.len() * f == 0) by (nonlinear_arith)
            requires out@.len() == 0;
        while buf.len() - start >= f
            invariant
                buf@ == all,
                f == old(self).frame_samples(),
                f > 0,
                start == out@.len() * f,
                start <= buf@.len(),
                forall|k: int|
                    0 <= k < out@.len() ==> (#[trigger] out@[k])@ == le_samples(
                        all.subrange(k * f, (k + 1) * f),
                    ),
            decreases buf@.len() - start,
        {
            let end = start + f;
            let packet = samples_to_le(&buf.as_slice()[start..end]);
            proof {
                assert(buf@.subrange(start as int, end as int) == all.subrange(
                    out@.len() * f,
                    (out@.len() + 1) * f,
                )) by (nonlinear_arith)
                    requires start == out@.len() * f, end == start + f, buf@ == all;
            }
            out.push(packet);
            start = end;
            proof {
                assert(start == out@.len() * f) by (nonlinear_arith)
                    requires start == (out@.len() - 1) * f + f;
            }
        }
        proof {
            assert(out@.len() == (all.len() as int) / (f as int)) by (nonlinear_arith)
                requires start == out@.len() * f, start <= all.len(), all.len() - start < f, f > 0;
        }
        let mut rest: Vec<i16> = Vec::new();
        let mut j: usize = start;
        while j < buf.len()
            invariant
                start <= j <= buf@.len(),
                rest@ == buf@.subrange(start as int, j as int),
            decreases buf@.len() - j,
        {
            rest.push(buf[j]);
            j = j + 1;
            assert(rest@ =~= buf@.subrange(start as int, j as int));
        }
        self.pending = rest;
        out
    }
}

/// An audio frame of a captured packet; the channel count is kept in a byte.
pub fn audio_frame(
    frame_id: u64,
    timestamp_ms: u64,
    sample_rate: u32,
    channels: u16,
    force_play: bool,
    data: Vec<u8>,
) -> (r: AudioFrame)
    ensures
        r == (AudioFrame {
            frame_id,
            timestamp_ms,
            sample_rate,
            channels: (channels % 256) as u8,
            force_play,
            data,
        }),
{
    AudioFrame {
        frame_id,
        timestamp_ms,
        sample_rate,
        channels: (channels % 256) as u8,
        force_play,
        data,
    }
}

/// Decides what playback does with a received frame: a forced frame unmutes,
/// a muted player drops it, and so does one whose channel count differs;
/// otherwise its samples are queued. Returns the muted flag after the frame.
pub fn playback(muted: bool, device_channels: usize, frame: &AudioFrame) -> (r: (
    bool,
    Option<Vec<i16>>,
))
    ensures
        r.0 == (muted && !frame.force_play),
        r.0 || frame.channels != device_channels ==> r.1 is None,
        !r.0 && frame.channels == device_channels ==> (r.1 matches Some(s) && s@ == samples_of(
            frame.data@,
        )),
{
    let now_muted = muted && !frame.force_play;
    if now_muted || frame.channels as usize != device_channels {
        (now_muted, None)
    } else {
        (now_muted, Some(le_to_samples(&frame.data)))
    }
}

} // verus!
