use vstd::prelude::*;

use crate::color::Rgb8;

verus! {

/// ASCII code of the digit `d`.
pub open spec fn digit(d: nat) -> u8
    recommends
        d < 10,
{
    (48 + d) as u8
}

/// The decimal writing of `n`, without leading zeros, as ASCII bytes.
pub open spec fn decimal(n: nat) -> Seq<u8>
    decreases n,
{
    if n < 10 {
        seq![digit(n)]
    } else {
        decimal(n / 10) + seq![digit(n % 10)]
    }
}

/// The PPM "P3" header: `P3\n<width> <height>\n255\n`.
pub open spec fn header(width: nat, height: nat) -> Seq<u8> {
    seq![80u8, 51u8, 10u8] + decimal(width) + seq![32u8] + decimal(height) + seq![
        10u8,
        50u8,
        53u8,
        53u8,
        10u8,
    ]
}

/// The line of one pixel: `R G B\n`.
pub open spec fn pixel_line(p: Rgb8) -> Seq<u8> {
    decimal(p.r as nat) + seq![32u8] + decimal(p.g as nat) + seq![32u8] + decimal(p.b as nat)
        + seq![10u8]
}

/// The lines of the pixels, in the order given.
pub open spec fn pixel_lines(pixels: Seq<Rgb8>) -> Seq<u8>
    decreases pixels.len(),
{
    if pixels.len() == 0 {
        Seq::empty()
    } else {
        pixel_lines(pixels.drop_last()) + pixel_line(pixels.last())
    }
}

/// The whole PPM text of an image of `width` by `height` pixels, row-major.
pub open spec fn ppm_text(width: nat, height: nat, pixels: Seq<Rgb8>) -> Seq<u8> {
    header(width, height) + pixel_lines(pixels)
}

/// Appends the decimal writing of `n`.
fn push_decimal(out: &mut Vec<u8>, n: u64)
    ensures
        final(out)@ == old(out)@ + decimal(n as nat),
    decreases n,
{
    if n >= 10 {
        push_decimal(out, n / 10);
    }
    let d: u8 = (n % 10) as u8;
    out.push(48 + d);
    assert(final(out)@ == old(out)@ + decimal(n as nat));
}

/// Appends the bytes of `bytes` one by one.
fn push_all(out: &mut Vec<u8>, bytes: &[u8])
    ensures
        final(out)@ == old(out)@ + bytes@,
{
    let mut i: usize = 0;
    while i < bytes.len()
        invariant
            i <= bytes@.len(),
            out@ == old(out)@ + bytes@.subrange(0, i as int),
        decreases bytes@.len() - i,
    {
        out.push(bytes[i]);
        i = i + 1;
        assert(bytes@.subrange(0, i as int) == bytes@.subrange(0, i - 1) + seq![bytes@[i - 1]]);
    }
    assert(bytes@.subrange(0, bytes@.len() as int) == bytes@);
}

/// Appends the line of one pixel.
pub fn push_pixel_line(out: &mut Vec<u8>, p: Rgb8)
    ensures
        final(out)@ == old(out)@ + pixel_line(p),
{
    push_decimal(out, p.r as u64);
    out.push(32);
    push_decimal(out, p.g as u64);
    out.push(32);
    push_decimal(out, p.b as u64);
    out.push(10);
    assert(final(out)@ == old(out)@ + pixel_line(p));
}

/// Encodes a row-major grid of `width` by `height` pixels as PPM "P3" text:
/// the header, then one line per pixel, top to bottom and left to right.
pub fn encode_ppm(width: u64, height: u64, pixels: &Vec<Rgb8>) -> (r: Vec<u8>)
    requires
        pixels@.len() == width as int * height as int,
    ensures
        r@ == ppm_text(width as nat, height as nat, pixels@),
{
    let mut out: Vec<u8> = Vec::new();
    push_all(&mut out, &[80u8, 51u8, 10u8]);
    push_decimal(&mut out, width);
    out.push(32);
    push_decimal(&mut out, height);
    push_all(&mut out, &[10u8, 50u8, 53u8, 53u8, 10u8]);
    assert(out@ == header(width as nat, height as nat));
    let mut i: usize = 0;
    while i < pixels.len()
        invariant
            i <= pixels@.len(),
            out@ == header(width as nat, height as nat) + pixel_lines(pixels@.subrange(0, i as int)),
        decreases pixels@.len() - i,
    {
        push_pixel_line(&mut out, pixels[i]);
        i = i + 1;
        assert(pixels@.subrange(0, i as int).drop_last() == pixels@.subrange(0, i - 1));
    }
    assert(pixels@.subrange(0, pixels@.len() as int) == pixels@);
    out
}

} // verus!
