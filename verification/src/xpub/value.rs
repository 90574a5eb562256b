//! The value of an imported extended public key: the key and the path it
//! was derived along.
use crate::primitives::{fingerprint_of_bytes, ChildNumber, DerivationPath, ExtendedPubKey, Fingerprint, XPubId};
use vstd::prelude::*;

verus! {

/// What the HASH160 (RIPEMD-160 of SHA-256) of `data` is.
pub uninterp spec fn hash160_digest(data: Seq<u8>) -> Seq<u8>;

/// HASH160 of `data`.
///
/// Calls `bitcoin_hashes::hash160::Hash::hash` (through bdk's bitcoin
/// re-export). The contract claims only that the twenty bytes returned are
/// the function `hash160_digest` of the input bytes.
#[verifier::external_body]
fn hash160(data: &[u8]) -> (digest: [u8; 20])
    ensures
        digest@ == hash160_digest(data@),
{
    let digest = <bdk::bitcoin::hashes::hash160::Hash as bdk::bitcoin::hashes::Hash>::hash(data);
    <bdk::bitcoin::hashes::hash160::Hash as bdk::bitcoin::hashes::Hash>::into_inner(digest)
}

/// The fingerprint of an extended public key: the first four bytes of the
/// HASH160 of its compressed public key.
pub open spec fn key_fingerprint(key: ExtendedPubKey) -> Fingerprint {
    fingerprint_of_bytes(hash160_digest(key.public_key@))
}

/// Computes the fingerprint of an extended public key.
pub fn fingerprint(key: &ExtendedPubKey) -> (fp: Fingerprint)
    ensures
        fp == key_fingerprint(*key),
{
    let digest = hash160(key.public_key.as_slice());
    Fingerprint([digest[0], digest[1], digest[2], digest[3]])
}

/// An imported extended public key together with the path it was derived
/// along, where that is known.
#[derive(Clone, Debug)]
pub struct XPub {
    pub inner: ExtendedPubKey,
    pub derivation: Option<DerivationPath>,
}

/// The mathematical value of an [`XPub`].
pub struct XPubView {
    pub inner: ExtendedPubKey,
    pub derivation: Option<Seq<ChildNumber>>,
}

/// The view of an optional derivation path.
pub open spec fn derivation_view(derivation: Option<DerivationPath>) -> Option<Seq<ChildNumber>> {
    match derivation {
        Some(path) => Some(path@),
        None => None,
    }
}

impl View for XPub {
    type V = XPubView;

    open spec fn view(&self) -> XPubView {
        XPubView { inner: self.inner, derivation: derivation_view(self.derivation) }
    }
}

/// The id of an extended public key: its fingerprint.
pub open spec fn xpub_id_of(key: ExtendedPubKey) -> XPubId {
    XPubId(key_fingerprint(key))
}

impl XPub {
    /// The id of this key.
    pub fn id(&self) -> (id: XPubId)
        ensures
            id == xpub_id_of(self.inner),
    {
        XPubId(fingerprint(&self.inner))
    }

    /// A copy of this value.
    pub fn duplicate(&self) -> (copy: XPub)
        ensures
            copy@ == self@,
    {
        let derivation = match &self.derivation {
            Some(path) => Some(path.duplicate()),
            None => None,
        };
        XPub { inner: self.inner, derivation }
    }
}

/// A key's fingerprint, and so its id, is the first four bytes of the
/// HASH160 of its public key bytes exactly as the key holds them, whatever
/// its first byte: the BIP-32 fingerprint.
pub proof fn lemma_fingerprint_is_bip32(key: ExtendedPubKey)
    ensures
        forall|j: int|
            0 <= j < 4 ==> #[trigger] key_fingerprint(key).0[j] == hash160_digest(key.public_key@)[j],
        forall|j: int|
            0 <= j < 4 ==> #[trigger] xpub_id_of(key).0.0[j] == hash160_digest(key.public_key@)[j],
{
}

} // verus!
