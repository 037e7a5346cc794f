//! Plain-text portable pixel map encoding.
use vstd::prelude::*;

verus! {

/// One quantized pixel: three 8-bit channels.
#[derive(Clone, Copy, Debug, PartialEq, Eq, Structural)]
pub struct Rgb8 {
    pub r: u8,
    pub g: u8,
    pub b: u8,
}

/// ASCII decimal digits of `n`, most significant first, without leading zeros.
pub open spec fn decimal(n: nat) -> Seq<u8>
    decreases n,
{
    if n < 10 {
        seq![(48 + n) as u8]
    } else {
        decimal(n / 10) + seq![(48 + n % 10) as u8]
    }
}

/// Appends the decimal digits of `n` to `out`.
pub fn push_decimal(out: &mut Vec<u8>, n: u32)
    ensures
        final(out)@ == old(out)@ + decimal(n as nat),
    decreases n,
{
    if n >= 10 {
        push_decimal(out, n / 10);
    }
    out.push(48u8 + (n % 10) as u8);
    proof {
        assert(out@ =~= old(out)@ + decimal(n as nat));
    }
}

/// The header of an image `width` pixels wide and `height` high, with 255
/// as the largest channel value: the plain-text magic number (the letter P
/// and the digit three), then `width height`, then `255`, one per line.
pub open spec fn header_text(width: nat, height: nat) -> Seq<u8> {
    seq![80u8, 51u8, 10u8] + decimal(width) + seq![32u8] + decimal(height) + seq![10u8]
        + seq![50u8, 53u8, 53u8, 10u8]
}

/// One pixel as a line of text: `r g b` and a newline.
pub open spec fn pixel_text(p: Rgb8) -> Seq<u8> {
    decimal(p.r as nat) + seq![32u8] + decimal(p.g as nat) + seq![32u8] + decimal(p.b as nat)
        + seq![10u8]
}

/// The lines of the pixels of `ps`, in their order.
pub open spec fn pixels_text(ps: Seq<Rgb8>) -> Seq<u8>
    decreases ps.len(),
{
    if ps.len() == 0 {
        Seq::empty()
    } else {
        pixels_text(ps.drop_last()) + pixel_text(ps.last())
    }
}

/// A whole image file: the header, then one line per pixel.
pub open spec fn image_text(width: nat, height: nat, ps: Seq<Rgb8>) -> Seq<u8> {
    header_text(width, height) + pixels_text(ps)
}

/// Appends the header of a `width` by `height` image to `out`.
pub fn push_header(out: &mut Vec<u8>, width: u32, height: u32)
    ensures
        final(out)@ == old(out)@ + header_text(width as nat, height as nat),
{
    out.push(80u8);
    out.push(51u8);
    out.push(10u8);
    push_decimal(out, width);
    out.push(32u8);
    push_decimal(out, height);
    out.push(10u8);
    out.push(50u8);
    out.push(53u8);
    out.push(53u8);
    out.push(10u8);
    proof {
        assert(out@ =~= old(out)@ + header_text(width as nat, height as nat));
    }
}

/// Appends the line of one pixel to `out`.
pub fn push_pixel(out: &mut Vec<u8>, p: Rgb8)
    ensures
        final(out)@ == old(out)@ + pixel_text(p),
{
    push_decimal(out, p.r as u32);
    out.push(32u8);
    push_decimal(out, p.g as u32);
    out.push(32u8);
    push_decimal(out, p.b as u32);
    out.push(10u8);
    proof {
        assert(out@ =~= old(out)@ + pixel_text(p));
    }
}

/// The text of a whole image: its header and its pixels in raster order.
pub fn encode_image(width: u32, height: u32, pixels: &Vec<Rgb8>) -> (r: Vec<u8>)
    ensures
        r@ == image_text(width as nat, height as nat, pixels@),
{
    let mut out: Vec<u8> = Vec::new();
    push_header(&mut out, width, height);
    let mut k: usize = 0;
    while k < pixels.len()
        invariant
            k <= pixels@.len(),
            out@ == header_text(width as nat, height as nat) + pixels_text(pixels@.take(k as int)),
        decreases pixels@.len() - k,
    {
        let ghost before = out@;
        push_pixel(&mut out, pixels[k]);
        proof {
            let next = pixels@.take(k + 1);
            assert(next.drop_last() =~= pixels@.take(k as int));
            assert(next.last() == pixels@[k as int]);
            assert(out@ =~= header_text(width as nat, height as nat) + pixels_text(next));
        }
        k = k + 1;
    }
    proof {
        assert(pixels@.take(k as int) =~= pixels@);
    }
    out
}

} // verus!
