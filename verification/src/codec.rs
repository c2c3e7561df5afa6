//! Message codec: encryption and decryption of direct-message payloads for a
//! directed pair of identities, through the `nostr` crate's NIP-04 scheme.
//!
//! Keys cross this module as hex strings: a secret key as 64 hex digits of
//! its scalar, a public identifier as 64 hex digits of its x-only point.
//! The cryptographic calls themselves are trusted; their contracts are
//! stated over names for their (deterministic) results, and the round-trip
//! law [`round_trip`] is proved from those contracts alone.

use nostr::nips::nip19::FromBech32;
use vstd::prelude::*;

verus! {

/// Whether a string is hex that the secret-key parser accepts: 64 hex digits
/// of a scalar in the valid range.
pub uninterp spec fn is_sk_hex(s: Seq<char>) -> bool;

/// Whether a string is hex of a public identifier usable for encryption:
/// 64 hex digits of an x-coordinate that lies on the curve.
pub uninterp spec fn is_dm_pubkey(s: Seq<char>) -> bool;

/// The hex public identifier derived from a secret key given as hex.
pub uninterp spec fn pk_of_sk(sk_hex: Seq<char>) -> Seq<char>;

/// The plaintext that decryption recovers from `ct` for the directed pair
/// `(sk_hex, pk_hex)`, or nothing when `ct` does not decrypt under that pair.
/// Decryption is a deterministic function of its three inputs.
pub uninterp spec fn dm_plain_of(sk_hex: Seq<char>, pk_hex: Seq<char>, ct: Seq<char>) -> Option<
    Seq<char>,
>;

/// The hex identifier encoded by a bech32 `npub` string, or nothing when the
/// string is not such an encoding.
pub uninterp spec fn npub_decode(s: Seq<char>) -> Option<Seq<char>>;

/// Errors of the message codec.
#[derive(Clone, Copy, Debug, PartialEq, Eq, Structural)]
pub enum CodecError {
    /// The payload could not be encrypted: unusable key material.
    Encryption,
    /// The payload could not be decrypted: malformed ciphertext or
    /// incompatible key material.
    Decryption,
}

/// Relies on `nostr::nips::nip04::encrypt` (with `SecretKey::from_hex` and
/// `PublicKey::from_hex` converting the arguments): encryption succeeds
/// exactly when the keys parse and the public point lies on the curve, and
/// any holder of a secret key behind the recipient identifier recovers the
/// plaintext from the produced ciphertext.
#[verifier::external_body]
fn nip04_encrypt_raw(sk_hex: &str, pk_hex: &str, text: &str) -> (r: Option<String>)
    ensures
        r is Some <==> (is_sk_hex(sk_hex@) && is_dm_pubkey(pk_hex@)),
        r matches Some(ct) ==> (forall|rsk: Seq<char>|
            is_sk_hex(rsk) && #[trigger] pk_of_sk(rsk) == pk_hex@ ==> dm_plain_of(
                rsk,
                pk_of_sk(sk_hex@),
                ct@,
            ) == Some(text@)),
{
    let sk = nostr::key::SecretKey::from_hex(sk_hex).ok()?;
    let pk = nostr::key::PublicKey::from_hex(pk_hex).ok()?;
    nostr::nips::nip04::encrypt(&sk, &pk, text).ok()
}

/// Relies on `nostr::nips::nip04::decrypt` (with `SecretKey::from_hex` and
/// `PublicKey::from_hex` converting the arguments): decryption is a
/// deterministic function of the pair and the ciphertext, and with usable
/// keys it succeeds exactly when that function yields a plaintext.
#[verifier::external_body]
fn nip04_decrypt_raw(sk_hex: &str, pk_hex: &str, ct: &str) -> (r: Option<String>)
    ensures
        r is Some ==> is_sk_hex(sk_hex@) && is_dm_pubkey(pk_hex@),
        r matches Some(pt) ==> dm_plain_of(sk_hex@, pk_hex@, ct@) == Some(pt@),
        is_sk_hex(sk_hex@) && is_dm_pubkey(pk_hex@) ==> (r is Some <==> dm_plain_of(
            sk_hex@,
            pk_hex@,
            ct@,
        ) is Some),
{
    let sk = nostr::key::SecretKey::from_hex(sk_hex).ok()?;
    let pk = nostr::key::PublicKey::from_hex(pk_hex).ok()?;
    nostr::nips::nip04::decrypt(&sk, &pk, ct).ok()
}

/// Relies on `nostr::key::Keys::public_key` (with `SecretKey::from_hex`
/// converting the argument and `PublicKey::to_hex` the result): derivation
/// succeeds exactly when the secret key parses, and the derived identifier
/// lies on the curve.
#[verifier::external_body]
fn derive_pk_raw(sk_hex: &str) -> (r: Option<String>)
    ensures
        r is Some <==> is_sk_hex(sk_hex@),
        r matches Some(p) ==> p@ == pk_of_sk(sk_hex@) && is_dm_pubkey(p@),
{
    let sk = nostr::key::SecretKey::from_hex(sk_hex).ok()?;
    let keys = nostr::key::Keys::new(sk);
    Some(keys.public_key().to_hex())
}

/// Relies on `nostr::key::PublicKey::from_bech32` (with `PublicKey::to_hex`
/// converting the result): a bech32 `npub` string decodes to the hex form of
/// the identifier it encodes, deterministically.
#[verifier::external_body]
pub(crate) fn npub_to_hex_raw(s: &str) -> (r: Option<String>)
    ensures
        r matches Some(h) ==> npub_decode(s@) == Some(h@),
        r is None ==> npub_decode(s@) is None,
{
    let pk = nostr::key::PublicKey::from_bech32(s).ok()?;
    Some(pk.to_hex())
}

/// Encrypt `plaintext` for the directed pair of the agent's secret key and
/// the recipient's public identifier, both as hex.
pub fn encrypt_dm(sk_hex: &str, recipient_pk_hex: &str, plaintext: &str) -> (r: Result<
    String,
    CodecError,
>)
    ensures
        r is Ok <==> is_sk_hex(sk_hex@) && is_dm_pubkey(recipient_pk_hex@),
        r matches Ok(ct) ==> (forall|rsk: Seq<char>|
            is_sk_hex(rsk) && #[trigger] pk_of_sk(rsk) == recipient_pk_hex@ ==> dm_plain_of(
                rsk,
                pk_of_sk(sk_hex@),
                ct@,
            ) == Some(plaintext@)),
        r matches Err(e) ==> e == CodecError::Encryption,
{
    match nip04_encrypt_raw(sk_hex, recipient_pk_hex, plaintext) {
        Some(ct) => Ok(ct),
        None => Err(CodecError::Encryption),
    }
}

/// Decrypt a ciphertext addressed to the agent from the sender behind
/// `sender_pk_hex`; the result is the deterministic decryption of the pair.
pub fn decrypt_dm(sk_hex: &str, sender_pk_hex: &str, ciphertext: &str) -> (r: Result<
    String,
    CodecError,
>)
    ensures
        r is Ok ==> is_sk_hex(sk_hex@) && is_dm_pubkey(sender_pk_hex@),
        r matches Ok(pt) ==> dm_plain_of(sk_hex@, sender_pk_hex@, ciphertext@) == Some(pt@),
        is_sk_hex(sk_hex@) && is_dm_pubkey(sender_pk_hex@) ==> (r is Ok <==> dm_plain_of(
            sk_hex@,
            sender_pk_hex@,
            ciphertext@,
        ) is Some),
        r matches Err(e) ==> e == CodecError::Decryption,
{
    match nip04_decrypt_raw(sk_hex, sender_pk_hex, ciphertext) {
        Some(pt) => Ok(pt),
        None => Err(CodecError::Decryption),
    }
}

/// Derive the hex public identifier of a hex secret key.
pub fn derive_pk(sk_hex: &str) -> (r: Option<String>)
    ensures
        r is Some <==> is_sk_hex(sk_hex@),
        r matches Some(p) ==> p@ == pk_of_sk(sk_hex@) && is_dm_pubkey(p@),
{
    derive_pk_raw(sk_hex)
}

/// Law: decryption inverts encryption. For any plaintext and any two valid
/// secret keys, encrypting as the sender to the recipient's identifier and
/// decrypting as the recipient from the sender's identifier returns the
/// plaintext unchanged; with valid keys the trip never fails.
pub fn round_trip(sender_sk_hex: &str, recipient_sk_hex: &str, plaintext: &str) -> (r: Option<
    String,
>)
    ensures
        r matches Some(pt) ==> pt@ == plaintext@,
        is_sk_hex(sender_sk_hex@) && is_sk_hex(recipient_sk_hex@) ==> (r matches Some(pt)
            && pt@ == plaintext@),
{
    let sender_pk = match derive_pk(sender_sk_hex) {
        Some(p) => p,
        None => {
            return None;
        },
    };
    let recipient_pk = match derive_pk(recipient_sk_hex) {
        Some(p) => p,
        None => {
            return None;
        },
    };
    let ct = match encrypt_dm(sender_sk_hex, recipient_pk.as_str(), plaintext) {
        Ok(c) => c,
        Err(_) => {
            return None;
        },
    };
    match decrypt_dm(recipient_sk_hex, sender_pk.as_str(), ct.as_str()) {
        Ok(pt) => Some(pt),
        Err(_) => None,
    }
}

} // verus!
