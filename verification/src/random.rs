//! Numbers drawn at random.

use vstd::prelude::*;

verus! {

/// Calls `gen_range` on `rand::thread_rng()` with the half-open range from
/// `low` to `high`, which gives a number of that range.
#[verifier::external_body]
pub(crate) fn random_between(low: u32, high: u32) -> (n: u32)
    requires
        low < high,
    ensures
        low <= n < high,
{
    rand::Rng::gen_range(&mut rand::thread_rng(), low..high)
}

/// Calls `try_fill_bytes` on `rand_core::OsRng`, the operating system's
/// random source, for a buffer of `count` bytes. Where the source fails
/// there are no bytes; where it does not, there are `count` of them.
#[verifier::external_body]
pub(crate) fn random_bytes(count: usize) -> (bytes: Option<Vec<u8>>)
    ensures
        bytes matches Some(b) ==> b@.len() == count,
{
    let mut buffer = vec![0u8; count];
    rand_core::RngCore::try_fill_bytes(&mut rand_core::OsRng, &mut buffer).ok()?;
    Some(buffer)
}

/// The view of bytes that may be absent.
pub open spec fn bytes_view(bytes: Option<Vec<u8>>) -> Option<Seq<u8>> {
    match bytes {
        Some(b) => Some(b@),
        None => None,
    }
}

/// What a draw of `count` random bytes can give: that many bytes, or none
/// where the random source fails.
pub open spec fn drawn(bytes: Option<Seq<u8>>, count: int) -> bool {
    bytes matches Some(b) ==> b.len() == count
}

/// Whether the random source has delivered `count` bytes.
pub open spec fn delivered(bytes: Option<Seq<u8>>, count: int) -> bool {
    bytes matches Some(b) && b.len() == count
}

} // verus!
