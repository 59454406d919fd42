//! Text decoding of byte spans, through std and encoding_rs.
use crate::wire::{ascii_bytes, ascii_chars};
use vstd::prelude::*;
use vstd::string::*;

verus! {

/// The characters that a lossy UTF-8 decoding of the bytes yields.
pub uninterp spec fn utf8_lossy(b: Seq<u8>) -> Seq<char>;

/// Whether decoding the bytes as UTF-16BE (with BOM sniffing) meets a
/// malformed sequence.
pub uninterp spec fn utf16be_malformed(b: Seq<u8>) -> bool;

/// Relies on `String::from_utf8_lossy`: the text depends on the bytes alone,
/// and valid UTF-8 (ASCII in particular) is kept character for character.
#[verifier::external_body]
pub(crate) fn lossy_text(b: &[u8]) -> (r: String)
    ensures
        r@ == utf8_lossy(b@),
        ascii_bytes(b@) ==> r@ == ascii_chars(b@),
{
    String::from_utf8_lossy(b).into_owned()
}

/// Relies on `encoding_rs::UTF_16BE.decode`: its third result tells whether
/// malformed sequences were replaced, and depends on the bytes alone. The
/// span is kept short, far from the size overflow on which `decode` panics.
#[verifier::external_body]
pub(crate) fn utf16be_has_errors(b: &[u8]) -> (r: bool)
    requires
        b@.len() <= 256,
    ensures
        r == utf16be_malformed(b@),
{
    encoding_rs::UTF_16BE.decode(b).2
}

/// The character of a decimal digit.
pub open spec fn digit_char(d: nat) -> char {
    if d == 0 {
        '0'
    } else if d == 1 {
        '1'
    } else if d == 2 {
        '2'
    } else if d == 3 {
        '3'
    } else if d == 4 {
        '4'
    } else if d == 5 {
        '5'
    } else if d == 6 {
        '6'
    } else if d == 7 {
        '7'
    } else if d == 8 {
        '8'
    } else {
        '9'
    }
}

/// The decimal digits of `n`, without leading zeros.
pub open spec fn decimal(n: nat) -> Seq<char>
    decreases n,
{
    if n < 10 {
        seq![digit_char(n)]
    } else {
        decimal(n / 10) + seq![digit_char(n % 10)]
    }
}

/// Relies on `ToString` through `Display` for `u16`: the number in decimal,
/// without sign or leading zeros.
#[verifier::external_body]
pub(crate) fn decimal_text(v: u16) -> (r: String)
    ensures
        r@ == decimal(v as nat),
{
    v.to_string()
}

/// The label of an operation: its name, `_v`, and its version in decimal.
pub fn versioned_name(name: &str, version: u16) -> (r: String)
    ensures
        r@ == name@ + "_v"@ + decimal(version as nat),
{
    let mut label = String::from_str(name);
    label.append("_v");
    let digits = decimal_text(version);
    label.append(digits.as_str());
    label
}

} // verus!
