//! The cryptographic primitives the ledger rests on: SHA-256, HMAC-SHA-256,
//! constant-time comparison and a key holder that wipes itself.
//!
//! Each primitive is reached through a small function whose body makes one
//! call and whose contract is taken on trust. Everything built on top of them
//! is proved from these contracts.

use vstd::prelude::*;

verus! {

/// SHA-256 of `message`: what `sha2::Sha256` returns from `finalize` once
/// `message` has been fed to it.
pub uninterp spec fn sha256(message: Seq<u8>) -> Seq<u8>;

/// HMAC-SHA-256 of `message` under `key`: what `hmac::Hmac<sha2::Sha256>`,
/// made from `key`, returns from `finalize` once `message` has been fed to it.
pub uninterp spec fn hmac_sha256(key: Seq<u8>, message: Seq<u8>) -> Seq<u8>;

/// The bytes a hasher has been fed so far, in order.
pub uninterp spec fn sha256_absorbed(hasher: Sha256Hasher) -> Seq<u8>;

/// The key a MAC computation was started with.
pub uninterp spec fn hmac_key(mac: HmacSha256) -> Seq<u8>;

/// The bytes a MAC computation has been fed so far, in order.
pub uninterp spec fn hmac_absorbed(mac: HmacSha256) -> Seq<u8>;

/// The key bytes a holder keeps.
pub uninterp spec fn held_key(key: SecretKey) -> Seq<u8>;

/// A running SHA-256 computation (`sha2::Sha256`).
#[verifier::external_body]
pub struct Sha256Hasher {
    inner: sha2::Sha256,
}

/// A running HMAC-SHA-256 computation (`hmac::Hmac<sha2::Sha256>`).
#[verifier::external_body]
pub struct HmacSha256 {
    inner: hmac::Hmac<sha2::Sha256>,
}

/// A 32-byte key in a `zeroize::Zeroizing` holder, which overwrites the key
/// when it is dropped.
#[verifier::external_body]
#[derive(Debug)]
pub struct SecretKey {
    inner: zeroize::Zeroizing<[u8; 32]>,
}

/// `sha2::Digest::new` for `Sha256`: a hasher that has been fed nothing.
#[verifier::external_body]
pub(crate) fn sha256_new() -> (hasher: Sha256Hasher)
    ensures
        sha256_absorbed(hasher) == Seq::<u8>::empty(),
{
    Sha256Hasher { inner: sha2::Digest::new() }
}

/// `sha2::Digest::update`: the hasher has been fed `data` after what it had
/// been fed before.
#[verifier::external_body]
pub(crate) fn sha256_update(hasher: &mut Sha256Hasher, data: &[u8])
    ensures
        sha256_absorbed(*final(hasher)) == sha256_absorbed(*old(hasher)) + data@,
{
    sha2::Digest::update(&mut hasher.inner, data);
}

/// `sha2::Digest::finalize`: the SHA-256 digest of everything the hasher was
/// fed.
#[verifier::external_body]
pub(crate) fn sha256_finalize(hasher: Sha256Hasher) -> (digest: [u8; 32])
    ensures
        digest@ == sha256(sha256_absorbed(hasher)),
{
    sha2::Digest::finalize(hasher.inner).into()
}

/// `hmac::Mac::new_from_slice` for `Hmac<Sha256>`: a MAC computation under
/// `key` that has been fed nothing. HMAC takes a key of any length, so the
/// call never returns its error.
#[verifier::external_body]
pub(crate) fn hmac_new(key: &[u8]) -> (mac: HmacSha256)
    ensures
        hmac_key(mac) == key@,
        hmac_absorbed(mac) == Seq::<u8>::empty(),
{
    HmacSha256 { inner: hmac::Mac::new_from_slice(key).expect("HMAC accepts any key size") }
}

/// `hmac::Mac::update`: the computation has been fed `data` after what it had
/// been fed before; its key stays.
#[verifier::external_body]
pub(crate) fn hmac_update(mac: &mut HmacSha256, data: &[u8])
    ensures
        hmac_key(*final(mac)) == hmac_key(*old(mac)),
        hmac_absorbed(*final(mac)) == hmac_absorbed(*old(mac)) + data@,
{
    hmac::Mac::update(&mut mac.inner, data);
}

/// `hmac::Mac::finalize` and `CtOutput::into_bytes`: the HMAC-SHA-256 code,
/// under the computation's key, of everything it was fed.
#[verifier::external_body]
pub(crate) fn hmac_finalize(mac: HmacSha256) -> (code: [u8; 32])
    ensures
        code@ == hmac_sha256(hmac_key(mac), hmac_absorbed(mac)),
{
    hmac::Mac::finalize(mac.inner).into_bytes().into()
}

/// `subtle::ConstantTimeEq::ct_eq` on byte slices: whether the two hold the
/// same bytes, found without stopping at the first difference.
#[verifier::external_body]
pub(crate) fn ct_eq(left: &[u8], right: &[u8]) -> (equal: bool)
    ensures
        equal == (left@ == right@),
{
    subtle::ConstantTimeEq::ct_eq(left, right).into()
}

/// `zeroize::Zeroizing::new`: a holder that keeps `key`.
#[verifier::external_body]
pub(crate) fn secret_new(key: [u8; 32]) -> (holder: SecretKey)
    ensures
        held_key(holder) == key@,
{
    SecretKey { inner: zeroize::Zeroizing::new(key) }
}

/// `Deref` on `zeroize::Zeroizing`: the key the holder keeps.
#[verifier::external_body]
pub(crate) fn secret_expose(holder: &SecretKey) -> (key: &[u8; 32])
    ensures
        key@ == held_key(*holder),
{
    &holder.inner
}

/// `Clone` on `zeroize::Zeroizing`: a second holder that keeps the same key.
#[verifier::external_body]
pub(crate) fn secret_clone(holder: &SecretKey) -> (copy: SecretKey)
    ensures
        held_key(copy) == held_key(*holder),
{
    SecretKey { inner: holder.inner.clone() }
}

impl View for Sha256Hasher {
    type V = Seq<u8>;

    /// The bytes fed so far.
    open spec fn view(&self) -> Seq<u8> {
        sha256_absorbed(*self)
    }
}

impl Sha256Hasher {
    /// A hasher that has been fed nothing.
    pub fn new() -> (hasher: Self)
        ensures
            hasher@ == Seq::<u8>::empty(),
    {
        sha256_new()
    }

    /// Feeds `data` to the hasher.
    pub fn update(&mut self, data: &[u8])
        ensures
            final(self)@ == old(self)@ + data@,
    {
        sha256_update(self, data)
    }

    /// The SHA-256 digest of everything fed.
    pub fn finalize(self) -> (digest: [u8; 32])
        ensures
            digest@ == sha256(self@),
    {
        sha256_finalize(self)
    }
}

/// What an HMAC computation is made of: its key and the message so far.
pub struct MacView {
    pub key: Seq<u8>,
    pub message: Seq<u8>,
}

impl View for HmacSha256 {
    type V = MacView;

    open spec fn view(&self) -> MacView {
        MacView { key: hmac_key(*self), message: hmac_absorbed(*self) }
    }
}

impl HmacSha256 {
    /// A MAC computation under `key` that has been fed nothing.
    pub fn new(key: &[u8]) -> (mac: Self)
        ensures
            mac@ == (MacView { key: key@, message: Seq::<u8>::empty() }),
    {
        hmac_new(key)
    }

    /// Feeds `data` to the computation.
    pub fn update(&mut self, data: &[u8])
        ensures
            final(self)@ == (MacView { key: old(self)@.key, message: old(self)@.message + data@ }),
    {
        hmac_update(self, data)
    }

    /// The HMAC-SHA-256 code of everything fed, under the key.
    pub fn finalize(self) -> (code: [u8; 32])
        ensures
            code@ == hmac_sha256(self@.key, self@.message),
    {
        hmac_finalize(self)
    }
}

impl View for SecretKey {
    type V = Seq<u8>;

    /// The key bytes.
    open spec fn view(&self) -> Seq<u8> {
        held_key(*self)
    }
}

impl Clone for SecretKey {
    fn clone(&self) -> (copy: Self)
        ensures
            copy@ == self@,
    {
        secret_clone(self)
    }
}

} // verus!
