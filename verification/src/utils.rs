use vstd::prelude::*;

use vstd::string::StringExecFns;

use rand::distributions::Alphanumeric;
use rand::Rng;

verus! {

/// One character of the token alphabet: ASCII letters and digits.
pub open spec fn is_alnum_char(c: char) -> bool {
    ('a' as u32) <= (c as u32) <= ('z' as u32) || ('A' as u32) <= (c as u32) <= ('Z' as u32) || (
    '0' as u32) <= (c as u32) <= ('9' as u32)
}

/// Every character of the string is an ASCII letter or digit.
pub open spec fn is_alnum(s: Seq<char>) -> bool {
    forall|i: int| 0 <= i < s.len() ==> is_alnum_char(#[trigger] s[i])
}

/// Relies on rand's `Alphanumeric` distribution: each sample is drawn
/// uniformly and unpredictably from the ASCII letters and digits, so the
/// result has exactly `length` characters, all alphanumeric. Two calls are
/// independent; nothing further can be said of the value.
#[verifier::external_body]
pub fn random_string(length: usize) -> (r: String)
    ensures
        r@.len() == length,
        is_alnum(r@),
{
    rand::thread_rng().sample_iter(&Alphanumeric).take(length).map(char::from).collect()
}

/// The verification link embedded in the outbound email:
/// `<base>/<username>/<token>`.
pub fn verification_link(base: &str, username: &str, token: &str) -> (r: String)
    ensures
        r@ == base@ + "/"@ + username@ + "/"@ + token@,
{
    let mut link = base.to_owned();
    link.append("/");
    link.append(username);
    link.append("/");
    link.append(token);
    link
}

} // verus!
