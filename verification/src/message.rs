//! Rendering the terminal failure as text. The decimal digits of the
//! attempt count and the assembly of the message are verified; only the
//! final conversion of ASCII bytes into a `String` is trusted.

use vstd::prelude::*;
use vstd::string::StringExecFns;

use crate::retry::RetryExhaustedError;

verus! {

/// The decimal digits of `n`, most significant first, as ASCII bytes.
pub open spec fn decimal_bytes(n: nat) -> Seq<u8>
    decreases n,
{
    if n < 10 {
        seq![(n + 48) as u8]
    } else {
        decimal_bytes(n / 10) + seq![(n % 10 + 48) as u8]
    }
}

/// The decimal digits of `n`, most significant first, as characters.
pub open spec fn decimal_chars(n: nat) -> Seq<char> {
    decimal_bytes(n).map_values(|b: u8| b as char)
}

/// Every byte of a decimal rendering is an ASCII digit.
proof fn lemma_decimal_bytes_are_ascii(n: nat)
    ensures
        forall|i: int| 0 <= i < decimal_bytes(n).len() ==> 48 <= #[trigger] decimal_bytes(n)[i]
            <= 57,
    decreases n,
{
    if n >= 10 {
        lemma_decimal_bytes_are_ascii(n / 10);
        assert forall|i: int| 0 <= i < decimal_bytes(n).len() implies 48 <= #[trigger] decimal_bytes(
            n,
        )[i] <= 57 by {
            let prefix = decimal_bytes(n / 10);
            if i < prefix.len() {
                assert(decimal_bytes(n)[i] == prefix[i]);
            } else {
                assert(decimal_bytes(n)[i] == (n % 10 + 48) as u8);
            }
        }
    }
}

/// Append the decimal digits of `n` to `out`.
fn push_decimal_bytes(out: &mut Vec<u8>, n: usize)
    ensures
        final(out)@ == old(out)@ + decimal_bytes(n as nat),
    decreases n,
{
    if n >= 10 {
        push_decimal_bytes(out, n / 10);
    }
    let digit: u8 = 48 + (n % 10) as u8;
    out.push(digit);
    proof {
        assert(out@ =~= old(out)@ + decimal_bytes(n as nat));
    }
}

/// Relies on `String::from_utf8`: bytes below 128 decode to the string of
/// the characters with the same code points.
#[verifier::external_body]
fn string_from_ascii(bytes: Vec<u8>) -> (s: String)
    requires
        forall|i: int| 0 <= i < bytes@.len() ==> bytes@[i] < 128,
    ensures
        s@ == bytes@.map_values(|b: u8| b as char),
{
    String::from_utf8(bytes).unwrap_or_default()
}

/// The decimal rendering of `n`.
fn decimal_string(n: usize) -> (s: String)
    ensures
        s@ == decimal_chars(n as nat),
{
    let mut bytes: Vec<u8> = Vec::new();
    push_decimal_bytes(&mut bytes, n);
    proof {
        lemma_decimal_bytes_are_ascii(n as nat);
        assert(bytes@ =~= decimal_bytes(n as nat));
    }
    string_from_ascii(bytes)
}

/// The text of the terminal failure for `location` after `attempts`
/// attempts.
pub open spec fn exhaustion_message(location: Seq<char>, attempts: nat) -> Seq<char> {
    "Download of location "@ + location + " failed after "@ + decimal_chars(attempts)
        + " attempts"@
}

impl RetryExhaustedError {
    /// Render the failure as text naming the location and the attempt
    /// count.
    pub fn message(&self) -> (s: String)
        ensures
            s@ == exhaustion_message(self.location@, self.attempts as nat),
    {
        let mut s = String::new();
        s.append("Download of location ");
        s.append(self.location.as_str());
        s.append(" failed after ");
        let digits = decimal_string(self.attempts);
        s.append(digits.as_str());
        s.append(" attempts");
        proof {
            assert(s@ =~= exhaustion_message(self.location@, self.attempts as nat));
        }
        s
    }
}

/// The terminal failure's text contains the location descriptor, and the
/// decimal rendering of the attempt count, each as a contiguous piece.
pub proof fn lemma_exhaustion_message_mentions_location_and_attempts(
    location: Seq<char>,
    attempts: nat,
)
    ensures
        exists|i: int|
            0 <= i && i + location.len() <= exhaustion_message(location, attempts).len()
                && #[trigger] exhaustion_message(location, attempts).subrange(
                i,
                i + location.len(),
            ) == location,
        exists|i: int|
            0 <= i && i + decimal_chars(attempts).len() <= exhaustion_message(
                location,
                attempts,
            ).len() && #[trigger] exhaustion_message(location, attempts).subrange(
                i,
                i + decimal_chars(attempts).len(),
            ) == decimal_chars(attempts),
{
    let msg = exhaustion_message(location, attempts);
    let i1 = "Download of location "@.len() as int;
    assert(msg.subrange(i1, i1 + location.len()) =~= location);
    let i2 = i1 + location.len() + " failed after "@.len();
    assert(msg.subrange(i2, i2 + decimal_chars(attempts).len()) =~= decimal_chars(attempts));
}

} // verus!
