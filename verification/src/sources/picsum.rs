//! Random photos from picsum.photos at the screen's resolution.

use vstd::prelude::*;
use crate::text::{
    chars_of, decimal, is_digit, lemma_decimal_digits, lemma_digits_lack,
    lemma_parse_decimal, lemma_split_two, owned, parse_u32, parse_u32_chars, push_decimal,
    split_at_char, split_on, views,
};

verus! {

/// The width and height a `WIDTHxHEIGHT` text gives: the first two pieces
/// between `x`s, read as numbers, 1920 and 1080 standing in for a piece that
/// is not one; 1920x1080 when there is no `x`.
pub open spec fn resolution_dims(resolution: Seq<char>) -> (u32, u32) {
    let parts = split_on(resolution, 'x');
    if parts.len() >= 2 {
        (
            match parse_u32(parts[0]) {
                Some(w) => w,
                None => 1920,
            },
            match parse_u32(parts[1]) {
                Some(h) => h,
                None => 1080,
            },
        )
    } else {
        (1920, 1080)
    }
}

/// The picsum.photos address of a random photo of the given size.
pub open spec fn picsum_address(resolution: Seq<char>) -> Seq<char> {
    let (w, h) = resolution_dims(resolution);
    "https://picsum.photos/"@ + decimal(w as nat) + "/"@ + decimal(h as nat)
}

/// Reads `WIDTHxHEIGHT`.
pub fn parse_resolution(resolution: &str) -> (r: (u32, u32))
    ensures
        r == resolution_dims(resolution@),
{
    let chars = chars_of(resolution);
    let parts = split_at_char(chars.as_slice(), 'x');
    let ghost ps = views(parts@);
    if parts.len() >= 2 {
        assert(parts@[0]@ == ps[0] && parts@[1]@ == ps[1]);
        let width = match parse_u32_chars(parts[0].as_slice()) {
            Some(w) => w,
            None => 1920,
        };
        let height = match parse_u32_chars(parts[1].as_slice()) {
            Some(h) => h,
            None => 1080,
        };
        (width, height)
    } else {
        (1920, 1080)
    }
}

/// The picsum.photos address for a resolution text.
pub fn picsum_url(resolution: &str) -> (r: String)
    ensures
        r@ == picsum_address(resolution@),
{
    let (width, height) = parse_resolution(resolution);
    let mut url = owned("https://picsum.photos/");
    push_decimal(&mut url, width as u64);
    url.append("/");
    push_decimal(&mut url, height as u64);
    url
}

/// A resolution written as `WIDTHxHEIGHT` reads back as the same width and
/// height.
pub proof fn resolution_round_trip(width: u32, height: u32)
    ensures
        resolution_dims(decimal(width as nat) + "x"@ + decimal(height as nat)) == (width, height),
{
    reveal_strlit("x");
    let a = decimal(width as nat);
    let b = decimal(height as nat);
    lemma_decimal_digits(width as nat);
    lemma_decimal_digits(height as nat);
    assert(!is_digit('x'));
    lemma_digits_lack(a, 'x');
    lemma_digits_lack(b, 'x');
    lemma_split_two(a, b, 'x');
    assert("x"@ == seq!['x']);
    lemma_parse_decimal(width);
    lemma_parse_decimal(height);
}

} // verus!
