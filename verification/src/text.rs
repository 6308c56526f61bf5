//! Rendering integers as decimal text, so that error messages can name
//! the rectangle of a failing monitor with an exactly specified wording.
use vstd::prelude::*;

use vstd::string::StringExecFns;

verus! {

/// The decimal digits of `n` as ASCII bytes, most significant first.
pub open spec fn spec_udecimal_bytes(n: nat) -> Seq<u8>
    decreases n,
{
    if n < 10 {
        seq![(48 + n) as u8]
    } else {
        spec_udecimal_bytes(n / 10).push((48 + n % 10) as u8)
    }
}

/// The textual form of `n`: a minus sign for a negative value, then the
/// decimal digits of its magnitude.
pub open spec fn spec_decimal_chars(n: int) -> Seq<char> {
    if n >= 0 {
        spec_udecimal_bytes(n as nat).map_values(|b: u8| b as char)
    } else {
        "-"@ + spec_udecimal_bytes((-n) as nat).map_values(|b: u8| b as char)
    }
}

/// Every byte of the decimal form is an ASCII digit.
pub proof fn lemma_udecimal_bytes_ascii(n: nat)
    ensures
        forall|i: int|
            0 <= i < spec_udecimal_bytes(n).len() ==> 48 <= #[trigger] spec_udecimal_bytes(n)[i]
                < 58,
    decreases n,
{
    if n >= 10 {
        lemma_udecimal_bytes_ascii(n / 10);
        let prev = spec_udecimal_bytes(n / 10);
        let whole = spec_udecimal_bytes(n);
        assert(whole == prev.push((48 + n % 10) as u8));
        assert forall|i: int| 0 <= i < whole.len() implies 48 <= #[trigger] whole[i] < 58 by {
            if i < prev.len() {
                assert(whole[i] == prev[i]);
            } else {
                assert(whole[i] == (48 + n % 10) as u8);
            }
        }
    }
}

/// Relies on `String::from_utf8`: bytes below 128 are valid UTF-8, one
/// character each, the character with that code.
#[verifier::external_body]
fn ascii_to_string(bytes: Vec<u8>) -> (r: String)
    requires
        forall|i: int| 0 <= i < bytes@.len() ==> bytes@[i] < 128,
    ensures
        r@ == bytes@.map_values(|b: u8| b as char),
{
    match String::from_utf8(bytes) {
        Ok(s) => s,
        Err(_) => String::new(),
    }
}

/// Appends the decimal digits of `n`, most significant first.
fn push_udecimal(digits: &mut Vec<u8>, n: u32)
    ensures
        final(digits)@ == old(digits)@ + spec_udecimal_bytes(n as nat),
    decreases n,
{
    if n < 10 {
        digits.push(48 + (n as u8));
        assert(digits@ =~= old(digits)@ + spec_udecimal_bytes(n as nat));
    } else {
        push_udecimal(digits, n / 10);
        digits.push(48 + ((n % 10) as u8));
        assert(digits@ =~= old(digits)@ + spec_udecimal_bytes(n as nat));
    }
}

/// `n` rendered in decimal.
pub fn decimal_string(n: i32) -> (r: String)
    ensures
        r@ == spec_decimal_chars(n as int),
{
    if n >= 0 {
        let mut digits: Vec<u8> = Vec::new();
        push_udecimal(&mut digits, n as u32);
        proof {
            lemma_udecimal_bytes_ascii(n as nat);
            assert(digits@ =~= spec_udecimal_bytes(n as nat));
        }
        ascii_to_string(digits)
    } else {
        let magnitude: u32 = (-(n as i64)) as u32;
        let mut digits: Vec<u8> = Vec::new();
        push_udecimal(&mut digits, magnitude);
        proof {
            lemma_udecimal_bytes_ascii(magnitude as nat);
            assert(digits@ =~= spec_udecimal_bytes(magnitude as nat));
        }
        let rendered = ascii_to_string(digits);
        let mut s: String = "-".to_owned();
        s.append(rendered.as_str());
        s
    }
}

} // verus!
