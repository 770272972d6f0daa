//! The calls into libsodium that a session makes, each with what it relies on.
use vstd::prelude::*;
use sodiumoxide::crypto::box_;
use sodiumoxide::randombytes;
use sodiumoxide::crypto::sealedbox;
use sodiumoxide::crypto::secretbox;

verus! {

/// Length of a secretbox key.
pub const KEY_LEN: usize = 32;

/// Length of a secretbox nonce.
pub const NONCE_LEN: usize = 24;

/// Length of a public or secret key of the key-exchange box.
pub const BOX_KEY_LEN: usize = 32;

/// What authenticated encryption of `m` under nonce `n` and key `k` gives.
pub uninterp spec fn secretbox_seal_of(m: Seq<u8>, n: Seq<u8>, k: Seq<u8>) -> Seq<u8>;

/// What verifying and decrypting `c` under nonce `n` and key `k` gives.
pub uninterp spec fn secretbox_open_of(c: Seq<u8>, n: Seq<u8>, k: Seq<u8>) -> Option<Seq<u8>>;

/// What opening the sealed box `c` with the key pair `(pk, sk)` gives.
pub uninterp spec fn sealed_open_of(c: Seq<u8>, pk: Seq<u8>, sk: Seq<u8>) -> Option<Seq<u8>>;

/// Relies on sodiumoxide's secretbox::seal: a deterministic function of message,
/// nonce and key, whose output is the message plus a 16-byte tag.
#[verifier::external_body]
pub(crate) fn secretbox_seal(m: &[u8], n: &[u8], k: &[u8]) -> (r: Vec<u8>)
    requires
        n@.len() == NONCE_LEN,
        k@.len() == KEY_LEN,
    ensures
        r@ == secretbox_seal_of(m@, n@, k@),
        r@.len() == m@.len() + 16,
{
    let n = secretbox::Nonce::from_slice(n).unwrap();
    let k = secretbox::Key::from_slice(k).unwrap();
    secretbox::seal(m, &n, &k)
}

/// Relies on sodiumoxide's secretbox::open: it gives back the message of any
/// ciphertext that secretbox::seal made with the same nonce and key.
#[verifier::external_body]
pub(crate) fn secretbox_open(c: &[u8], n: &[u8], k: &[u8]) -> (r: Result<Vec<u8>, ()>)
    requires
        n@.len() == NONCE_LEN,
        k@.len() == KEY_LEN,
    ensures
        match r {
            Ok(m) => secretbox_open_of(c@, n@, k@) == Some(m@),
            Err(_) => secretbox_open_of(c@, n@, k@) is None,
        },
        forall|m: Seq<u8>| c@ == secretbox_seal_of(m, n@, k@) ==> r is Ok && r->Ok_0@ == m,
{
    let n = secretbox::Nonce::from_slice(n).unwrap();
    let k = secretbox::Key::from_slice(k).unwrap();
    secretbox::open(c, &n, &k)
}

/// Relies on sodiumoxide's sealedbox::open: it fails on a ciphertext shorter
/// than the 48 bytes of ephemeral key and tag, and otherwise gives a message
/// 48 bytes shorter than the ciphertext.
#[verifier::external_body]
pub(crate) fn sealed_open(c: &[u8], pk: &[u8], sk: &[u8]) -> (r: Result<Vec<u8>, ()>)
    requires
        pk@.len() == BOX_KEY_LEN,
        sk@.len() == BOX_KEY_LEN,
    ensures
        match r {
            Ok(m) => sealed_open_of(c@, pk@, sk@) == Some(m@) && m@.len() + 48 == c@.len(),
            Err(_) => sealed_open_of(c@, pk@, sk@) is None,
        },
        c@.len() < 48 ==> r is Err,
{
    let pk = box_::PublicKey::from_slice(pk).unwrap();
    let sk = box_::SecretKey::from_slice(sk).unwrap();
    sealedbox::open(c, &pk, &sk)
}

/// Relies on sodiumoxide's randombytes::randombytes: `n` random bytes.
#[verifier::external_body]
pub(crate) fn random_bytes(n: usize) -> (r: Vec<u8>)
    ensures
        r@.len() == n,
{
    randombytes::randombytes(n)
}

/// Relies on sodiumoxide's box_::gen_keypair: a fresh random key pair, each
/// key of 32 bytes.
#[verifier::external_body]
pub(crate) fn generate_box_keypair() -> (r: (Vec<u8>, Vec<u8>))
    ensures
        r.0@.len() == BOX_KEY_LEN,
        r.1@.len() == BOX_KEY_LEN,
{
    let (pk, sk) = box_::gen_keypair();
    (pk.0.to_vec(), sk.0.to_vec())
}

} // verus!
