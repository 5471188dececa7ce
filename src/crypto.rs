use rand::SeedableRng;
use vstd::prelude::*;

verus! {

/// Whether 32 bytes are the compressed form of a point on the curve that the
/// pool's encryption key lives on.
pub uninterp spec fn is_curve_point(b: Seq<u8>) -> bool;

/// The ciphertext that hybrid encryption under the public key `pk` gives for
/// `msg` when its randomness is drawn from a generator seeded with `seed`;
/// `None` where encryption fails.
pub uninterp spec fn sealed(pk: Seq<u8>, msg: Seq<u8>, seed: Seq<u8>) -> Option<Seq<u8>>;

/// Relies on ecies_ed25519::PublicKey::from_bytes, which accepts exactly 32
/// bytes that decompress to a curve point.
#[verifier::external_body]
pub(crate) fn check_curve_point(b: &[u8; 32]) -> (r: bool)
    ensures
        r == is_curve_point(b@),
{
    ecies_ed25519::PublicKey::from_bytes(b).is_ok()
}

/// Relies on ecies_ed25519::encrypt, driven by rand's `StdRng` seeded with
/// `seed`: the ciphertext is a function of the key, the message and the seed.
/// A key that is not a curve point is refused by the same `from_bytes` as above;
/// past that, the only failure is a plaintext longer than AES-GCM accepts
/// (the seeded generator never fails to fill the nonce).
#[verifier::external_body]
pub(crate) fn encrypt_seeded(pk: &[u8; 32], msg: &[u8], seed: [u8; 32]) -> (r: Option<Vec<u8>>)
    ensures
        is_curve_point(pk@) && msg@.len() <= max_sealed_len() ==> r is Some,
        r is Some <==> sealed(pk@, msg@, seed@) is Some,
        r matches Some(c) ==> sealed(pk@, msg@, seed@) == Some(c@),
{
    let key = ecies_ed25519::PublicKey::from_bytes(pk).ok()?;
    let mut rng = rand::rngs::StdRng::from_seed(seed);
    ecies_ed25519::encrypt(&key, msg, &mut rng).ok()
}

/// The 32-byte Ristretto public key that schnorrkel expands, in Ed25519 mode,
/// from a 32-byte secret seed.
pub uninterp spec fn schnorr_public(seed: Seq<u8>) -> Seq<u8>;

/// Whether the 64-byte signature `sig` over `msg` under the signing context
/// `ctx` is accepted by the public key `pk` (schnorrkel's `verify_simple`).
pub uninterp spec fn schnorr_verifies(pk: Seq<u8>, ctx: Seq<u8>, msg: Seq<u8>, sig: Seq<u8>) -> bool;

/// The longest plaintext that AES-GCM, the symmetric half of the encryption,
/// accepts.
pub open spec fn max_sealed_len() -> nat {
    68719476736
}

/// Relies on schnorrkel: MiniSecretKey::from_bytes (which accepts any 32
/// bytes), expand_to_keypair in Ed25519 mode, Keypair::sign_simple and
/// Signature::to_bytes. The nonce is partly random; whatever it is, the
/// signature verifies under the expanded key's public key, for the same
/// context and message.
#[verifier::external_body]
pub(crate) fn sign_with_seed(seed: &[u8; 32], ctx: &[u8], msg: &[u8]) -> (r: Option<[u8; 64]>)
    ensures
        r is Some,
        r matches Some(s) ==> schnorr_verifies(schnorr_public(seed@), ctx@, msg@, s@),
{
    match schnorrkel::MiniSecretKey::from_bytes(seed) {
        Ok(k) => {
            let pair = k.expand_to_keypair(schnorrkel::ExpansionMode::Ed25519);
            Some(pair.sign_simple(ctx, msg).to_bytes())
        },
        Err(_) => None,
    }
}

} // verus!
