//! MD5 digests through the `md-5` crate, as an incremental hasher whose input
//! so far is named by `md5_input`.

use md5::Digest;
use md5::Md5;
use vstd::prelude::*;

verus! {

/// An incremental MD5 hasher of the `md-5` crate (`md5::Md5`).
///
/// The crate's type is `CoreWrapper<Md5Core>`; it is held here opaquely, and
/// what it has been fed is named by `md5_input`.
#[verifier::external_body]
pub struct Md5Hasher {
    inner: Md5,
}

/// All bytes fed to an MD5 hasher since it was created, in order.
pub uninterp spec fn md5_input(h: Md5Hasher) -> Seq<u8>;

/// The MD5 digest (16 bytes) of a byte string.
pub uninterp spec fn md5_of(data: Seq<u8>) -> Seq<u8>;

/// `Md5::new()` (`Digest::new`): a hasher that has been fed nothing.
#[verifier::external_body]
pub(crate) fn md5_new() -> (h: Md5Hasher)
    ensures
        md5_input(h) == Seq::<u8>::empty(),
{
    Md5Hasher { inner: Md5::new() }
}

/// `Digest::update`: feeds `data` to the hasher, after what it was fed before.
#[verifier::external_body]
pub(crate) fn md5_update(h: &mut Md5Hasher, data: &[u8])
    ensures
        md5_input(*final(h)) == md5_input(*old(h)) + data@,
{
    Digest::update(&mut h.inner, data)
}

/// `Digest::finalize`, on a clone of the hasher: the 16-byte MD5 digest of
/// everything the hasher was fed; the hasher itself is left as it was.
#[verifier::external_body]
pub(crate) fn md5_digest(h: &Md5Hasher) -> (d: Vec<u8>)
    ensures
        d@ == md5_of(md5_input(*h)),
        d@.len() == 16,
{
    h.inner.clone().finalize().to_vec()
}

} // verus!
