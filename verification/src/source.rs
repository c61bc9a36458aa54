//! What a signature takes from the machine rather than from its inputs:
//! the time, and a random nonce.

use rand::Rng;
use vstd::prelude::*;

verus! {

/// `std::time::SystemTime`, a reading of the clock that is only handed
/// on.
#[verifier::external_type_specification]
#[verifier::external_body]
pub struct ExSystemTime(std::time::SystemTime);

/// An ASCII letter or digit.
pub open spec fn is_alphanumeric(c: char) -> bool {
    ||| '0' <= c <= '9'
    ||| 'A' <= c <= 'Z'
    ||| 'a' <= c <= 'z'
}

/// A text of the given length, all of ASCII letters and digits.
pub open spec fn is_nonce(text: Seq<char>, len: nat) -> bool {
    &&& text.len() == len
    &&& forall|i: int| 0 <= i < text.len() ==> is_alphanumeric(#[trigger] text[i])
}

/// `len` samples of `rand::distributions::Alphanumeric` from
/// `rand::thread_rng`, each of which is an ASCII letter or digit. Which
/// ones differs from call to call.
#[verifier::external_body]
pub(crate) fn random_alphanumeric(len: usize) -> (res: String)
    ensures
        is_nonce(res@, len as nat),
{
    rand::thread_rng().sample_iter(&rand::distributions::Alphanumeric).take(len).map(
        char::from,
    ).collect()
}

/// `std::time::SystemTime::now`: whatever the clock reads.
#[verifier::external_body]
pub(crate) fn clock_now() -> std::time::SystemTime {
    std::time::SystemTime::now()
}

/// `SystemTime::duration_since` the Unix epoch, or `None` where the time
/// lies before it.
#[verifier::external_body]
pub(crate) fn since_unix_epoch(time: &std::time::SystemTime) -> Option<std::time::Duration> {
    time.duration_since(std::time::UNIX_EPOCH).ok()
}

/// `Duration::as_secs`: the whole seconds of a duration.
#[verifier::external_body]
pub(crate) fn whole_seconds(duration: &std::time::Duration) -> u64 {
    duration.as_secs()
}

} // verus!
