//! The picture as plain-text PPM: a header of three lines, then one line of
//! three decimal numbers for each pixel, row by row from the top.
use vstd::prelude::*;

verus! {

/// A pixel as it is written: red, green and blue, each from 0 to 255.
#[derive(Clone, Copy, Debug, PartialEq, Eq, Structural)]
pub struct Rgb {
    pub red: u8,
    pub green: u8,
    pub blue: u8,
}

/// The decimal numeral of `n`, in ASCII, without leading zeros.
pub open spec fn digits(n: nat) -> Seq<u8>
    decreases n,
{
    if n < 10 {
        seq![(48 + n) as u8]
    } else {
        digits(n / 10).push((48 + n % 10) as u8)
    }
}

/// The number that a decimal numeral stands for.
pub open spec fn value(text: Seq<u8>) -> nat
    decreases text.len(),
{
    if text.len() == 0 {
        0
    } else {
        (10 * value(text.drop_last()) + (text.last() - 48)) as nat
    }
}

/// What a channel's scaled value is written as: itself between 0 and 255,
/// the nearer end outside.
pub open spec fn level(scaled: i64) -> u8 {
    if scaled < 0 {
        0
    } else if scaled > 255 {
        255
    } else {
        scaled as u8
    }
}

/// The header: the magic token of plain PPM, then width and height, then the largest
/// channel value, each on a line of its own.
pub open spec fn header_text(width: u16, height: u16) -> Seq<u8> {
    seq![80u8, 51, 10] + digits(width as nat) + seq![32u8] + digits(height as nat) + seq![
        10u8,
        50,
        53,
        53,
        10,
    ]
}

/// The line of one pixel: its three channels with a blank between them.
pub open spec fn pixel_text(pixel: Rgb) -> Seq<u8> {
    digits(pixel.red as nat) + seq![32u8] + digits(pixel.green as nat) + seq![32u8] + digits(
        pixel.blue as nat,
    ) + seq![10u8]
}

/// The lines of all pixels, in the order given.
pub open spec fn body_text(pixels: Seq<Rgb>) -> Seq<u8>
    decreases pixels.len(),
{
    if pixels.len() == 0 {
        Seq::<u8>::empty()
    } else {
        body_text(pixels.drop_last()) + pixel_text(pixels.last())
    }
}

/// The whole file.
pub open spec fn image_text(width: u16, height: u16, pixels: Seq<Rgb>) -> Seq<u8> {
    header_text(width, height) + body_text(pixels)
}

/// Appends the decimal numeral of `n`.
fn push_decimal(out: &mut Vec<u8>, n: u32)
    ensures
        final(out)@ == old(out)@ + digits(n as nat),
    decreases n,
{
    if n >= 10 {
        push_decimal(out, n / 10);
    }
    let digit: u8 = (n % 10) as u8;
    out.push(48 + digit);
    proof {
        if n >= 10 {
            assert((old(out)@ + digits(n as nat / 10)).push((48 + digit) as u8) == old(out)@
                + digits(n as nat));
        }
    }
}

/// Appends the line of one pixel.
fn push_pixel(out: &mut Vec<u8>, pixel: &Rgb)
    ensures
        final(out)@ == old(out)@ + pixel_text(*pixel),
{
    push_decimal(out, pixel.red as u32);
    out.push(32);
    push_decimal(out, pixel.green as u32);
    out.push(32);
    push_decimal(out, pixel.blue as u32);
    out.push(10);
    assert(out@ == old(out)@ + pixel_text(*pixel));
}

/// Brings a channel's scaled value into the range that the file can hold.
pub fn channel(scaled: i64) -> (r: u8)
    ensures
        r == level(scaled),
{
    if scaled < 0 {
        0
    } else if scaled > 255 {
        255
    } else {
        scaled as u8
    }
}

/// The header of a picture of the given size.
pub fn header(width: u16, height: u16) -> (text: Vec<u8>)
    ensures
        text@ == header_text(width, height),
{
    let mut text: Vec<u8> = Vec::new();
    text.push(80);
    text.push(51);
    text.push(10);
    push_decimal(&mut text, width as u32);
    text.push(32);
    push_decimal(&mut text, height as u32);
    text.push(10);
    text.push(50);
    text.push(53);
    text.push(53);
    text.push(10);
    assert(text@ == header_text(width, height));
    text
}

/// The line of one pixel.
pub fn pixel_line(pixel: &Rgb) -> (text: Vec<u8>)
    ensures
        text@ == pixel_text(*pixel),
{
    let mut text: Vec<u8> = Vec::new();
    push_pixel(&mut text, pixel);
    text
}

/// The whole file for a picture whose pixels are given row by row from the
/// top, or `None` where their number is not width times height.
pub fn image(width: u16, height: u16, pixels: &Vec<Rgb>) -> (r: Option<Vec<u8>>)
    ensures
        match r {
            Some(text) => pixels.len() == width * height && text@ == image_text(
                width,
                height,
                pixels@,
            ),
            None => pixels.len() != width * height,
        },
{
    assert(width * height <= 65535 * 65535) by (nonlinear_arith)
        requires
            width <= 65535,
            height <= 65535,
    ;
    if pixels.len() as u64 != width as u64 * height as u64 {
        return None;
    }
    let mut text = header(width, height);
    let mut i: usize = 0;
    while i < pixels.len()
        invariant
            i <= pixels.len(),
            text@ == header_text(width, height) + body_text(pixels@.take(i as int)),
        decreases pixels.len() - i,
    {
        proof {
            let grown = pixels@.take(i + 1);
            assert(grown.drop_last() == pixels@.take(i as int));
            assert(grown.last() == pixels@[i as int]);
        }
        push_pixel(&mut text, &pixels[i]);
        i = i + 1;
    }
    assert(pixels@.take(i as int) == pixels@);
    Some(text)
}

/// A numeral can be read back: it stands for the number it was made of.
pub proof fn law_digits_read_back(n: nat)
    ensures
        value(digits(n)) == n,
        digits(n).len() >= 1,
        forall|i: int| 0 <= i < digits(n).len() ==> 48 <= #[trigger] digits(n)[i] <= 57,
        n > 0 ==> digits(n)[0] != 48,
    decreases n,
{
    if n < 10 {
        let text = digits(n);
        assert(text.drop_last().len() == 0);
        assert(value(text.drop_last()) == 0);
    } else {
        law_digits_read_back(n / 10);
        let text = digits(n);
        assert(text.drop_last() == digits(n / 10));
    }
}

/// What is written for a channel is never outside the range that the header
/// announces, and a value in range is written as it is.
pub proof fn law_level_is_clamped(scaled: i64)
    ensures
        0 <= level(scaled) <= 255,
        0 <= scaled <= 255 ==> level(scaled) == scaled,
        scaled < 0 ==> level(scaled) == 0,
        scaled > 255 ==> level(scaled) == 255,
{
}

} // verus!
