//! Random identifiers and verification codes.
use vstd::prelude::*;
use crate::app::utils::text::push_char;
use rand::Rng;

verus! {

/// ASCII letters and digits: the alphabet of identifiers.
pub open spec fn is_alphanumeric(c: char) -> bool {
    ||| ('a' <= c && c <= 'z')
    ||| ('A' <= c && c <= 'Z')
    ||| ('0' <= c && c <= '9')
}

/// `s` is an identifier of `len` characters, each an ASCII letter or digit.
pub open spec fn is_sid(s: Seq<char>, len: nat) -> bool {
    &&& s.len() == len
    &&& forall|i: int| 0 <= i < s.len() ==> is_alphanumeric(#[trigger] s[i])
}

/// One byte drawn from the thread-local generator by `rand`'s `Alphanumeric` distribution,
/// which its documentation describes as uniform over the ASCII letters and digits.
#[verifier::external_body]
fn random_alphanumeric_byte() -> (b: u8)
    ensures
        is_alphanumeric(b as char),
{
    rand::thread_rng().sample(rand::distributions::Alphanumeric)
}

/// A number drawn from the thread-local generator by `Rng::gen_range(low..high)`, which its
/// documentation describes as uniform over the half-open range (and which panics on an empty
/// one, hence the `requires`).
#[verifier::external_body]
fn random_in_range(low: u32, high: u32) -> (r: u32)
    requires
        low < high,
    ensures
        low <= r < high,
{
    rand::thread_rng().gen_range(low..high)
}

/// A fresh random identifier of `len` ASCII letters and digits.
pub fn sid_creator(len: u8) -> (sid: String)
    ensures
        is_sid(sid@, len as nat),
{
    let mut sid = String::new();
    let mut i: u8 = 0;
    while i < len
        invariant
            i <= len,
            is_sid(sid@, i as nat),
        decreases len - i,
    {
        let b = random_alphanumeric_byte();
        push_char(&mut sid, b as char);
        i = i + 1;
    }
    sid
}

/// A fresh verification code for users: a number in `132568..987984`.
pub fn verify_creator() -> (code: u32)
    ensures
        132568 <= code < 987984,
{
    random_in_range(132568, 987984)
}

/// A fresh verification code for sellers: a number in `13256..65535`.
pub fn seller_verify_creator() -> (code: u16)
    ensures
        13256 <= code < 65535,
{
    let code = random_in_range(13256, 65535);
    code as u16
}

} // verus!
