//! A picture of the display as a PNG file.
use crate::numbers::push_decimal;
use vstd::prelude::*;

verus! {

/// The `png` crate's encoding error.
#[verifier::external_type_specification]
#[verifier::external_body]
pub struct ExEncodingError(png::EncodingError);

/// The file that the `png` crate makes of an 8-bit RGB image.
pub uninterp spec fn png_file(w: u32, h: u32, rgb: Seq<u8>) -> Option<Seq<u8>>;

/// `png::Encoder` on a byte vector, set to 8-bit RGB: its header, the whole image
/// by `Writer::write_image_data`, and `Writer::finish`.
///
/// It is claimed that the file depends on the size and the samples alone, and that
/// there is one exactly if neither side is 0 and there are three samples per pixel.
/// With fewer samples the encoder's size computation could overflow. What the file
/// holds is not said.
#[verifier::external_body]
fn encode_rgb(w: u32, h: u32, rgb: &Vec<u8>) -> (r: Result<Vec<u8>, png::EncodingError>)
    requires
        3 * w * h <= rgb@.len(),
    ensures
        r is Ok ==> png_file(w, h, rgb@) == Some(r->Ok_0@),
        r is Err ==> png_file(w, h, rgb@) is None,
        r is Ok == (w > 0 && h > 0 && rgb@.len() == 3 * w * h),
{
    let mut file = Vec::new();
    let mut encoder = png::Encoder::new(&mut file, w, h);
    encoder.set_color(png::ColorType::Rgb);
    encoder.set_depth(png::BitDepth::Eight);
    let mut writer = encoder.write_header()?;
    writer.write_image_data(rgb)?;
    writer.finish()?;
    Ok(file)
}

/// Why there is no file.
#[derive(Debug)]
pub enum PictureError {
    /// There are no pixels, or fewer than the size asks for.
    NoFrame(String),
    /// The encoder refused.
    Encoder(png::EncodingError),
}

/// Red, green or blue of an 0x00RRGGBB pixel.
pub open spec fn sample(pixel: u32, channel: int) -> u8 {
    if channel == 0 {
        (pixel / 0x10000 % 256) as u8
    } else if channel == 1 {
        (pixel / 256 % 256) as u8
    } else {
        (pixel % 256) as u8
    }
}

/// The samples of pixels, three of each.
pub open spec fn samples(pixels: Seq<u32>) -> Seq<u8> {
    Seq::new(3 * pixels.len(), |i: int| sample(pixels[i / 3], i % 3))
}

/// The complaint about a frame that cannot be written.
pub open spec fn no_frame(w: nat, h: nat, pixels: nat) -> Seq<char> {
    "png: no frame to write ("@ + crate::numbers::decimal(w) + "x"@ + crate::numbers::decimal(h)
        + ", "@ + crate::numbers::decimal(pixels) + " pixels)"@
}

fn rgb_of(pixels: &[u32], n: usize) -> (rgb: Vec<u8>)
    requires
        n <= pixels@.len(),
    ensures
        rgb@ == samples(pixels@.take(n as int)),
{
    let mut rgb: Vec<u8> = Vec::new();
    let mut i: usize = 0;
    while i < n
        invariant
            i <= n <= pixels@.len(),
            rgb@ == samples(pixels@.take(i as int)),
        decreases n - i,
    {
        let p = pixels[i];
        rgb.push((p / 0x10000 % 256) as u8);
        rgb.push((p / 256 % 256) as u8);
        rgb.push((p % 256) as u8);
        let ghost more = samples(pixels@.take(i + 1));
        assert forall|k: int| 0 <= k < 3 * (i + 1) implies #[trigger] rgb@[k] == more[k] by {
            if k < 3 * i {
                assert(k / 3 < i);
            } else {
                assert(k / 3 == i);
            }
        }
        assert(rgb@ =~= more);
        i = i + 1;
    }
    assert(rgb@ =~= samples(pixels@.take(n as int)));
    rgb
}

/// Sides cut to 32 bits: what does not fit leaves fewer pixels.
proof fn truncation_shrinks(w: usize, h: usize)
    requires
        w > 0,
        h > 0,
    ensures
        3 * (w as u32) * (h as u32) <= 3 * (w * h),
        (w > u32::MAX || h > u32::MAX) <==> !(w as u32 > 0 && h as u32 > 0 && 3 * (w * h) == 3 * (
        w as u32) * (h as u32)),
{
    let a = w as u32;
    let b = h as u32;
    assert(a <= w && b <= h && (w > 0xFFFF_FFFF ==> a < w) && (h > 0xFFFF_FFFF ==> b < h) && (w
        <= 0xFFFF_FFFF ==> a == w) && (h <= 0xFFFF_FFFF ==> b == h)) by (bit_vector)
        requires
            a == w as u32,
            b == h as u32,
    ;
    assert(a * b <= w * h) by (nonlinear_arith)
        requires
            a <= w,
            b <= h,
    ;
    if a < w || b < h {
        assert(a * b < w * h || a == 0 || b == 0) by (nonlinear_arith)
            requires
                a <= w,
                b <= h,
                a < w || b < h,
                w > 0,
                h > 0,
        ;
    }
    assert(3 * a * b == 3 * (a * b)) by (nonlinear_arith);
}

/// Encode 0x00RRGGBB pixels as an 8-bit RGB PNG file.
pub fn encode_png(pixels: &[u32], w: usize, h: usize) -> (r: Result<Vec<u8>, PictureError>)
    requires
        w * h <= usize::MAX,
    ensures
        w == 0 || h == 0 || pixels@.len() < w * h ==> (r matches Err(PictureError::NoFrame(e)) && e@
            == no_frame(w as nat, h as nat, pixels@.len())),
        w > 0 && h > 0 && pixels@.len() >= w * h && w <= u32::MAX && h <= u32::MAX ==> (
        r matches Ok(file) && png_file(w as u32, h as u32, samples(pixels@.take(w * h))) == Some(
            file@,
        )),
        w > 0 && h > 0 && pixels@.len() >= w * h && (w > u32::MAX || h > u32::MAX) ==> (
        r matches Err(PictureError::Encoder(_))),
{
    if w == 0 || h == 0 || pixels.len() < w * h {
        let mut m = String::from_str("png: no frame to write (");
        push_decimal(&mut m, w as u64);
        m.append("x");
        push_decimal(&mut m, h as u64);
        m.append(", ");
        push_decimal(&mut m, pixels.len() as u64);
        m.append(" pixels)");
        return Err(PictureError::NoFrame(m));
    }
    let rgb = rgb_of(pixels, w * h);
    let width = w as u32;
    let height = h as u32;
    proof {
        truncation_shrinks(w, h);
    }
    match encode_rgb(width, height, &rgb) {
        Ok(file) => Ok(file),
        Err(e) => Err(PictureError::Encoder(e)),
    }
}

} // verus!
