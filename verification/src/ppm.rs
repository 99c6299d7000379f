use vstd::prelude::*;

verus! {

use crate::pixel::Rgb;

// The output artifact is a plain-text image: a three-line header (magic,
// dimensions, maximum channel value) followed by one line per pixel holding
// the three channels as space-separated decimal integers, in row-major
// order starting from the top row.

/// The ASCII digit for `d`.
pub open spec fn ascii_digit(d: int) -> u8 {
    (48 + d) as u8
}

/// The decimal digits of `n`, most significant first, as ASCII bytes.
pub open spec fn dec_digits(n: int) -> Seq<u8>
    decreases n,
{
    if n < 10 {
        seq![ascii_digit(n)]
    } else {
        dec_digits(n / 10).push(ascii_digit(n % 10))
    }
}

/// Append the decimal digits of `n` to the output buffer.
fn push_decimal(out: &mut Vec<u8>, n: u32)
    ensures
        final(out)@ == old(out)@ + dec_digits(n as int),
    decreases n,
{
    if n >= 10 {
        push_decimal(out, n / 10);
        out.push(48 + (n % 10) as u8);
        proof {
            assert(old(out)@ + dec_digits(n as int) =~= (old(out)@ + dec_digits(
                n as int / 10,
            )).push(ascii_digit(n as int % 10)));
        }
    } else {
        out.push(48 + n as u8);
        proof {
            assert(old(out)@ + dec_digits(n as int) =~= old(out)@.push(ascii_digit(n as int)));
        }
    }
}

/// The decimal text of `n`, as ASCII bytes.
pub fn decimal_bytes(n: u32) -> (r: Vec<u8>)
    ensures
        r@ == dec_digits(n as int),
{
    let mut out: Vec<u8> = Vec::new();
    push_decimal(&mut out, n);
    proof {
        assert(Seq::<u8>::empty() + dec_digits(n as int) =~= dec_digits(n as int));
    }
    out
}

/// One body line: the three channels of a pixel, space-separated.
pub open spec fn ppm_pixel_line(p: Rgb) -> Seq<u8> {
    dec_digits(p.r as int) + seq![32u8] + dec_digits(p.g as int) + seq![32u8] + dec_digits(
        p.b as int,
    ) + seq![10u8]
}

/// The pixel lines of a whole buffer, in buffer order.
pub open spec fn ppm_body(pixels: Seq<Rgb>) -> Seq<u8>
    decreases pixels.len(),
{
    if pixels.len() == 0 {
        Seq::empty()
    } else {
        ppm_pixel_line(pixels[0]) + ppm_body(pixels.drop_first())
    }
}

/// The header: the magic line, the dimensions line, and the maximum channel
/// value line.
pub open spec fn ppm_header(width: int, height: int) -> Seq<u8> {
    seq![80u8, 51u8, 10u8] + dec_digits(width) + seq![32u8] + dec_digits(height) + seq![10u8]
        + dec_digits(255) + seq![10u8]
}

/// The full text image: header, then one line per pixel.
pub open spec fn ppm_image(width: int, height: int, pixels: Seq<Rgb>) -> Seq<u8> {
    ppm_header(width, height) + ppm_body(pixels)
}

/// Extending the buffer by one pixel appends exactly that pixel's line.
proof fn lemma_ppm_body_push(pixels: Seq<Rgb>, p: Rgb)
    ensures
        ppm_body(pixels.push(p)) == ppm_body(pixels) + ppm_pixel_line(p),
    decreases pixels.len(),
{
    reveal_with_fuel(ppm_body, 3);
    if pixels.len() == 0 {
        assert(pixels.push(p).drop_first() =~= Seq::<Rgb>::empty());
        assert(ppm_body(pixels.push(p)) =~= ppm_body(pixels) + ppm_pixel_line(p));
    } else {
        lemma_ppm_body_push(pixels.drop_first(), p);
        assert(pixels.push(p).drop_first() =~= pixels.drop_first().push(p));
        assert(ppm_body(pixels.push(p)) =~= ppm_body(pixels) + ppm_pixel_line(p));
    }
}

/// Append one pixel's line to the output buffer.
fn push_pixel_line(out: &mut Vec<u8>, p: Rgb)
    ensures
        final(out)@ == old(out)@ + ppm_pixel_line(p),
{
    push_decimal(out, p.r as u32);
    out.push(32);
    push_decimal(out, p.g as u32);
    out.push(32);
    push_decimal(out, p.b as u32);
    out.push(10);
    proof {
        assert(out@ =~= old(out)@ + ppm_pixel_line(p));
    }
}

/// Serialize a rendered image as plain text: the header for a `width` by
/// `height` image with maximum channel value 255, then one line per pixel
/// in row-major order starting from the top row.
pub fn ppm_encode(width: u32, height: u32, pixels: &Vec<Rgb>) -> (r: Vec<u8>)
    requires
        pixels@.len() == width * height,
    ensures
        r@ == ppm_image(width as int, height as int, pixels@),
{
    let mut out: Vec<u8> = Vec::new();
    out.push(80);
    out.push(51);
    out.push(10);
    push_decimal(&mut out, width);
    out.push(32);
    push_decimal(&mut out, height);
    out.push(10);
    out.push(50);
    out.push(53);
    out.push(53);
    out.push(10);
    proof {
        reveal_with_fuel(dec_digits, 4);
        assert(out@ =~= ppm_header(width as int, height as int));
        assert(out@ + ppm_body(pixels@.take(0)) =~= out@);
    }
    let mut k: usize = 0;
    while k < pixels.len()
        invariant
            k <= pixels@.len(),
            out@ == ppm_image(width as int, height as int, pixels@.take(k as int)),
        decreases pixels@.len() - k,
    {
        push_pixel_line(&mut out, pixels[k]);
        proof {
            assert(pixels@.take(k as int + 1) =~= pixels@.take(k as int).push(pixels@[k as int]));
            lemma_ppm_body_push(pixels@.take(k as int), pixels@[k as int]);
            assert(ppm_image(width as int, height as int, pixels@.take(k as int)) + ppm_pixel_line(
                pixels@[k as int],
            ) =~= ppm_image(width as int, height as int, pixels@.take(k as int + 1)));
        }
        k = k + 1;
    }
    proof {
        assert(pixels@.take(pixels@.len() as int) =~= pixels@);
    }
    out
}

} // verus!
