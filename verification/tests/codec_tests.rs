use nostr::key::Keys;
use nostr::nips::nip19::ToBech32;
use rovr::codec::{decrypt_dm, derive_pk, encrypt_dm, round_trip};

#[test]
fn round_trip_returns_plaintext() {
    let sender = Keys::generate();
    let recipient = Keys::generate();
    let msg = "please fetch https://youtu.be/dQw4w9WgXcQ";
    let got = round_trip(
        &sender.secret_key().to_secret_hex(),
        &recipient.secret_key().to_secret_hex(),
        msg,
    );
    assert_eq!(got.as_deref(), Some(msg));
}

#[test]
fn ciphertext_differs_from_plaintext() {
    let sender = Keys::generate();
    let recipient = Keys::generate();
    let msg = "a perfectly ordinary message";
    let ct = encrypt_dm(
        &sender.secret_key().to_secret_hex(),
        &recipient.public_key().to_hex(),
        msg,
    )
    .unwrap();
    assert_ne!(ct, msg);
    let pt = decrypt_dm(
        &recipient.secret_key().to_secret_hex(),
        &sender.public_key().to_hex(),
        &ct,
    )
    .unwrap();
    assert_eq!(pt, msg);
}

#[test]
fn decrypt_agrees_with_the_crate_itself() {
    let sender = Keys::generate();
    let recipient = Keys::generate();
    let ct = nostr::nips::nip04::encrypt(
        sender.secret_key(),
        &recipient.public_key(),
        "cross-checked payload",
    )
    .unwrap();
    let pt = decrypt_dm(
        &recipient.secret_key().to_secret_hex(),
        &sender.public_key().to_hex(),
        &ct,
    )
    .unwrap();
    assert_eq!(pt, "cross-checked payload");
}

#[test]
fn encrypt_rejects_bad_keys() {
    let recipient = Keys::generate();
    let err = encrypt_dm("not a key", &recipient.public_key().to_hex(), "hi").unwrap_err();
    assert_eq!(err, rovr::codec::CodecError::Encryption);
}

#[test]
fn decrypt_rejects_garbage() {
    let sender = Keys::generate();
    let recipient = Keys::generate();
    let err = decrypt_dm(
        &recipient.secret_key().to_secret_hex(),
        &sender.public_key().to_hex(),
        "not a ciphertext",
    )
    .unwrap_err();
    assert_eq!(err, rovr::codec::CodecError::Decryption);
}

#[test]
fn derived_identifier_matches_the_crate() {
    let keys = Keys::generate();
    let derived = derive_pk(&keys.secret_key().to_secret_hex()).unwrap();
    assert_eq!(derived, keys.public_key().to_hex());
    // and the bech32 form of the same key really is a different string
    assert_ne!(keys.public_key().to_bech32().unwrap(), derived);
}

#[test]
fn derive_rejects_bad_secret() {
    assert_eq!(derive_pk("zz"), None);
}

#[test]
fn round_trip_fails_on_invalid_keys() {
    let recipient = Keys::generate();
    assert_eq!(
        round_trip("not a key", &recipient.secret_key().to_secret_hex(), "m"),
        None
    );
}
