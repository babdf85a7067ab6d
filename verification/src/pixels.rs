use vstd::prelude::*;

use crate::chars::{chars_are, push_str_chars, str_chars, string_from_chars};
use crate::text::{lower_chars, lower_seq, trim_chars, trimmed};

verus! {

/// The pixel layout of a captured frame.
#[derive(Debug, Clone, Copy, PartialEq, Eq, Structural)]
pub enum ImageFormat {
    Rgba8,
    Bgra8,
    Png,
}

/// The name of a pixel layout in timing records and shared snapshot commands.
pub open spec fn image_format_label(format: ImageFormat) -> Seq<char> {
    match format {
        ImageFormat::Rgba8 => "rgba8"@,
        ImageFormat::Bgra8 => "bgra8"@,
        ImageFormat::Png => "png"@,
    }
}

/// The name of a pixel layout.
pub fn image_format_name(format: ImageFormat) -> (r: &'static str)
    ensures
        r@ == image_format_label(format),
{
    match format {
        ImageFormat::Rgba8 => "rgba8",
        ImageFormat::Bgra8 => "bgra8",
        ImageFormat::Png => "png",
    }
}

/// The error for a frame that cannot be shared as raw pixels.
pub open spec fn png_frame_error() -> Seq<char> {
    "PNG screenshot frames cannot be shared as raw memory"@
}

/// Whether a frame of this layout can be shared as raw pixels; PNG frames cannot.
pub fn shareable_frame_format(format: ImageFormat) -> (r: Result<ImageFormat, String>)
    ensures
        format != ImageFormat::Png ==> r == Ok::<ImageFormat, String>(format),
        format == ImageFormat::Png ==> (r matches Err(e) && e@ == png_frame_error()),
{
    match format {
        ImageFormat::Rgba8 | ImageFormat::Bgra8 => Ok(format),
        ImageFormat::Png => Err("PNG screenshot frames cannot be shared as raw memory".to_owned()),
    }
}

/// The RGBA pixels of BGRA pixels: each whole four-byte pixel has its blue and red bytes
/// swapped and is made opaque; trailing bytes that make no whole pixel are dropped.
pub open spec fn rgba_of_bgra(bytes: Seq<u8>) -> Seq<u8> {
    Seq::new(
        (bytes.len() / 4 * 4) as nat,
        |i: int|
            {
                let p = i / 4 * 4;
                if i % 4 == 0 {
                    bytes[p + 2]
                } else if i % 4 == 1 {
                    bytes[p + 1]
                } else if i % 4 == 2 {
                    bytes[p]
                } else {
                    255u8
                }
            },
    )
}

/// The RGBA pixels of BGRA pixels, made opaque.
pub fn bgra_to_rgba(bytes: &[u8]) -> (r: Vec<u8>)
    ensures
        r@ == rgba_of_bgra(bytes@),
{
    let n = bytes.len() / 4;
    let mut r: Vec<u8> = Vec::new();
    let mut k: usize = 0;
    while k < n
        invariant
            n == bytes.len() / 4,
            k <= n,
            r.len() == k * 4,
            forall|i: int| 0 <= i < r.len() ==> r@[i] == #[trigger] rgba_of_bgra(bytes@)[i],
        decreases n - k,
    {
        let p = k * 4;
        r.push(bytes[p + 2]);
        r.push(bytes[p + 1]);
        r.push(bytes[p]);
        r.push(255);
        proof {
            assert forall|i: int| p <= i < p + 4 implies r@[i] == #[trigger] rgba_of_bgra(
                bytes@,
            )[i] by {
                assert(i / 4 == k) by (nonlinear_arith)
                    requires
                        p == k * 4,
                        p <= i < p + 4,
                ;
                assert(i % 4 == i - p) by (nonlinear_arith)
                    requires
                        p == k * 4,
                        p <= i < p + 4,
                ;
            }
        }
        k = k + 1;
    }
    assert(r@ =~= rgba_of_bgra(bytes@));
    r
}

/// The pixels of a frame as RGBA: RGBA frames as they are, BGRA frames converted, and
/// PNG frames refused.
pub fn frame_to_rgba(format: ImageFormat, bytes: &Vec<u8>) -> (r: Result<Vec<u8>, String>)
    ensures
        format == ImageFormat::Rgba8 ==> (r matches Ok(v) && v@ == bytes@),
        format == ImageFormat::Bgra8 ==> (r matches Ok(v) && v@ == rgba_of_bgra(bytes@)),
        format == ImageFormat::Png ==> (r matches Err(e) && e@ == png_frame_error()),
{
    match format {
        ImageFormat::Rgba8 => Ok(bytes.clone()),
        ImageFormat::Bgra8 => Ok(bgra_to_rgba(bytes.as_slice())),
        ImageFormat::Png => Err("PNG screenshot frames cannot be shared as raw memory".to_owned()),
    }
}

/// BGRA pixels turned into RGBA in place: in each whole four-byte pixel the blue and red
/// bytes swap and the alpha byte becomes opaque; trailing bytes stay as they are.
pub open spec fn rgba_in_place_of_bgra(bytes: Seq<u8>) -> Seq<u8> {
    Seq::new(
        bytes.len(),
        |i: int|
            {
                let p = i / 4 * 4;
                if i >= bytes.len() / 4 * 4 {
                    bytes[i]
                } else if i % 4 == 0 {
                    bytes[p + 2]
                } else if i % 4 == 2 {
                    bytes[p]
                } else if i % 4 == 3 {
                    255u8
                } else {
                    bytes[i]
                }
            },
    )
}

/// Turns BGRA pixels into RGBA in place.
pub fn bgra_to_rgba_in_place(bytes: &mut Vec<u8>)
    ensures
        final(bytes)@ == rgba_in_place_of_bgra(old(bytes)@),
{
    let ghost orig = bytes@;
    let n = bytes.len() / 4;
    let mut k: usize = 0;
    while k < n
        invariant
            n == orig.len() / 4,
            k <= n,
            bytes.len() == orig.len(),
            forall|i: int| 0 <= i < k * 4 ==> bytes@[i] == #[trigger] rgba_in_place_of_bgra(orig)[i],
            forall|i: int| k * 4 <= i < bytes.len() ==> bytes@[i] == orig[i],
        decreases n - k,
    {
        let p = k * 4;
        let blue = bytes[p];
        let red = bytes[p + 2];
        bytes.set(p, red);
        bytes.set(p + 2, blue);
        bytes.set(p + 3, 255);
        proof {
            assert forall|i: int| p <= i < p + 4 implies bytes@[i] == #[trigger] rgba_in_place_of_bgra(
                orig,
            )[i] by {
                assert(i / 4 == k) by (nonlinear_arith)
                    requires
                        p == k * 4,
                        p <= i < p + 4,
                ;
                assert(i % 4 == i - p) by (nonlinear_arith)
                    requires
                        p == k * 4,
                        p <= i < p + 4,
                ;
                assert(i < orig.len() / 4 * 4) by (nonlinear_arith)
                    requires
                        p == k * 4,
                        i < p + 4,
                        k < orig.len() / 4,
                ;
            }
        }
        k = k + 1;
    }
    proof {
        assert forall|i: int| n * 4 <= i < orig.len() implies bytes@[i]
            == #[trigger] rgba_in_place_of_bgra(orig)[i] by {}
    }
    assert(bytes@ =~= rgba_in_place_of_bgra(orig));
}

/// Whether shared snapshot dimensions fit their bytes: both sides non-zero and exactly
/// four bytes per pixel.
pub open spec fn snapshot_dimensions_fit(width: u32, height: u32, byte_len: usize) -> bool {
    width != 0 && height != 0 && byte_len == width * height * 4
}

/// Whether shared snapshot dimensions fit their bytes.
pub fn snapshot_dimensions_valid(width: u32, height: u32, byte_len: usize) -> (b: bool)
    ensures
        b == snapshot_dimensions_fit(width, height, byte_len),
{
    if width == 0 || height == 0 {
        return false;
    }
    let w = width as u128;
    let h = height as u128;
    assert(w * h <= 0xffff_ffff_ffff_ffff_ffff_ffff_ffff) by (nonlinear_arith)
        requires
            w <= 0xffff_ffff,
            h <= 0xffff_ffff,
    ;
    let expected: u128 = w * h * 4;
    (byte_len as u128) == expected
}

/// The pixel layout a shared snapshot's format name stands for, read without
/// surrounding white space and in any case: RGBA for `rgba8`/`rgba`, BGRA for
/// `bgra8`/`bgra`.
pub open spec fn snapshot_format_of(name: Seq<char>) -> Option<ImageFormat> {
    let f = lower_seq(trimmed(name));
    if f == "rgba8"@ || f == "rgba"@ {
        Some(ImageFormat::Rgba8)
    } else if f == "bgra8"@ || f == "bgra"@ {
        Some(ImageFormat::Bgra8)
    } else {
        None
    }
}

/// The pixel layout a shared snapshot's format name stands for, if any.
pub fn snapshot_format(name: &str) -> (r: Option<ImageFormat>)
    ensures
        r == snapshot_format_of(name@),
{
    let t = str_chars(name);
    let f = lower_chars(&trim_chars(&t));
    if chars_are(&f, "rgba8") || chars_are(&f, "rgba") {
        Some(ImageFormat::Rgba8)
    } else if chars_are(&f, "bgra8") || chars_are(&f, "bgra") {
        Some(ImageFormat::Bgra8)
    } else {
        None
    }
}

/// The RGBA pixels of a shared snapshot of the named format, or `None` for a format
/// that is not RGBA or BGRA.
pub fn snapshot_bytes_to_rgba(format: &str, bytes: Vec<u8>) -> (r: Option<Vec<u8>>)
    ensures
        snapshot_format_of(format@) == Some(ImageFormat::Rgba8) ==> (r matches Some(v) && v@ == bytes@),
        snapshot_format_of(format@) == Some(ImageFormat::Bgra8) ==> (r matches Some(v) && v@
            == rgba_in_place_of_bgra(bytes@)),
        snapshot_format_of(format@) is None ==> r is None,
{
    match snapshot_format(format) {
        Some(ImageFormat::Rgba8) => Some(bytes),
        Some(ImageFormat::Bgra8) => {
            let mut b = bytes;
            bgra_to_rgba_in_place(&mut b);
            Some(b)
        },
        _ => None,
    }
}

/// A snapshot load failure: the overlay's load-failure text, a colon and the reason.
pub open spec fn snapshot_load_error(load_failed_text: Seq<char>, reason: Seq<char>) -> Seq<char> {
    load_failed_text + ": "@ + reason
}

fn load_error(load_failed_text: &str, reason: &str) -> (r: String)
    ensures
        r@ == snapshot_load_error(load_failed_text@, reason@),
{
    let mut v: Vec<char> = Vec::new();
    push_str_chars(&mut v, load_failed_text);
    push_str_chars(&mut v, ": ");
    push_str_chars(&mut v, reason);
    proof {
        reveal_strlit(": ");
    }
    string_from_chars(&v)
}

/// The check a shared snapshot passes before it is opened: its dimensions must fit its
/// bytes; otherwise loading fails with the load-failure text followed by
/// `: invalid shared snapshot dimensions`.
pub fn check_shared_snapshot(width: u32, height: u32, byte_len: usize, load_failed_text: &str) -> (r:
    Result<(), String>)
    ensures
        snapshot_dimensions_fit(width, height, byte_len) ==> r is Ok,
        !snapshot_dimensions_fit(width, height, byte_len) ==> (r matches Err(e) && e@
            == snapshot_load_error(load_failed_text@, "invalid shared snapshot dimensions"@)),
{
    if snapshot_dimensions_valid(width, height, byte_len) {
        Ok(())
    } else {
        Err(load_error(load_failed_text, "invalid shared snapshot dimensions"))
    }
}

/// The pixels of a shared snapshot once its memory was opened (or not): a failure to
/// open is reported after the load-failure text; bytes of a format that is not RGBA or
/// BGRA fail with `: invalid RGBA buffer`; otherwise the RGBA pixels.
pub fn shared_snapshot_pixels(format: &str, opened: Result<Vec<u8>, String>, load_failed_text: &str) -> (r:
    Result<Vec<u8>, String>)
    ensures
        match opened {
            Err(e) => r matches Err(m) && m@ == snapshot_load_error(load_failed_text@, e@),
            Ok(bytes) => match snapshot_format_of(format@) {
                Some(ImageFormat::Rgba8) => r matches Ok(v) && v@ == bytes@,
                Some(ImageFormat::Bgra8) => r matches Ok(v) && v@ == rgba_in_place_of_bgra(bytes@),
                _ => r matches Err(m) && m@ == snapshot_load_error(
                    load_failed_text@,
                    "invalid RGBA buffer"@,
                ),
            },
        },
{
    match opened {
        Err(e) => Err(load_error(load_failed_text, e.as_str())),
        Ok(bytes) => match snapshot_bytes_to_rgba(format, bytes) {
            Some(v) => Ok(v),
            None => Err(load_error(load_failed_text, "invalid RGBA buffer")),
        },
    }
}

} // verus!
