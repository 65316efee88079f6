use robo::security::chachapoly::{KEY_LEN, MAX_MESSAGE_LEN, NONCE_LEN, TAG_LEN};
use robo::security::{ChaChaPolySecurity, CryptoError, EmptySecurity, NoSecurity, Security};

fn fixed_key() -> [u8; 32] {
    let mut key = [0u8; 32];
    for (i, byte) in key.iter_mut().enumerate() {
        *byte = (i * 7 + 1) as u8;
    }
    key
}

fn fixed_nonce() -> [u8; 12] {
    [9, 8, 7, 6, 5, 4, 3, 2, 1, 0, 11, 12]
}

fn ring_seal(key: &[u8; 32], nonce: [u8; 12], message: &[u8]) -> Vec<u8> {
    let unbound = ring::aead::UnboundKey::new(&ring::aead::CHACHA20_POLY1305, key).unwrap();
    let mut buffer = message.to_vec();
    ring::aead::LessSafeKey::new(unbound)
        .seal_in_place_append_tag(
            ring::aead::Nonce::assume_unique_for_key(nonce),
            ring::aead::Aad::empty(),
            &mut buffer,
        )
        .unwrap();
    buffer
}

#[test]
fn lengths_are_those_of_the_cipher() {
    assert_eq!(KEY_LEN, ring::aead::CHACHA20_POLY1305.key_len());
    assert_eq!(NONCE_LEN, ring::aead::NONCE_LEN);
    assert_eq!(TAG_LEN, ring::aead::CHACHA20_POLY1305.tag_len());
    assert_eq!(MAX_MESSAGE_LEN, ((1u64 << 32) - 1) * 64);
}

#[test]
fn empty_security_is_the_identity() {
    let security = EmptySecurity;
    assert_eq!(security.kind(), "none");
    assert_eq!(security.key(), None);
    assert_eq!(security.seal(b"hello"), Ok(b"hello".to_vec()));
    assert_eq!(security.open(b"hello"), Ok(b"hello".to_vec()));
    assert_eq!(security.seal(b""), Ok(Vec::new()));
    assert_eq!(security.open(b""), Ok(Vec::new()));
}

#[test]
fn no_security_is_empty_security() {
    let security: NoSecurity = EmptySecurity;
    assert_eq!(security.kind(), "none");
    assert_eq!(security.open(&security.seal(b"abc").unwrap()), Ok(b"abc".to_vec()));
}

#[test]
fn chachapoly_kind_and_key() {
    let security = ChaChaPolySecurity::with_key(fixed_key());
    assert_eq!(security.kind(), "chachapoly");
    assert_eq!(security.key(), Some(&fixed_key()[..]));
}

#[test]
fn new_makes_a_key_of_the_ciphers_length() {
    let security = ChaChaPolySecurity::new().unwrap();
    assert_eq!(security.key().map(|key| key.len()), Some(32));
}

#[test]
fn new_keys_differ() {
    let first = ChaChaPolySecurity::new().unwrap();
    let second = ChaChaPolySecurity::new().unwrap();
    assert_ne!(first.key().map(|key| key.to_vec()), second.key().map(|key| key.to_vec()));
}

#[test]
fn envelope_is_nonce_ciphertext_tag() {
    let security = ChaChaPolySecurity::with_key(fixed_key());
    let message = b"attack at dawn";
    let envelope = security.seal_with_nonce(&fixed_nonce(), message).unwrap();
    assert_eq!(envelope.len(), 12 + message.len() + 16);
    assert_eq!(&envelope[..12], &fixed_nonce()[..]);
    assert_eq!(&envelope[12..], &ring_seal(&fixed_key(), fixed_nonce(), message)[..]);
    assert_ne!(&envelope[12..12 + message.len()], &message[..]);
}

#[test]
fn empty_message_seals_to_nonce_and_tag() {
    let security = ChaChaPolySecurity::with_key(fixed_key());
    let envelope = security.seal_with_nonce(&fixed_nonce(), b"").unwrap();
    assert_eq!(envelope.len(), 28);
    assert_eq!(security.open(&envelope), Ok(Vec::new()));
}

#[test]
fn open_inverts_seal_with_nonce() {
    let security = ChaChaPolySecurity::with_key(fixed_key());
    let message = b"{\"type\":\"mouseClick\"}";
    let envelope = security.seal_with_nonce(&fixed_nonce(), message).unwrap();
    assert_eq!(security.open(&envelope), Ok(message.to_vec()));
}

#[test]
fn open_reads_what_ring_sealed() {
    let security = ChaChaPolySecurity::with_key(fixed_key());
    let mut envelope = fixed_nonce().to_vec();
    envelope.extend(ring_seal(&fixed_key(), fixed_nonce(), b"from outside"));
    assert_eq!(security.open(&envelope), Ok(b"from outside".to_vec()));
}

#[test]
fn open_inverts_seal_for_a_thousand_nonces() {
    let security = ChaChaPolySecurity::new().unwrap();
    let mut nonces = std::collections::HashSet::new();
    for i in 0..1000u32 {
        let message = format!("message number {}", i).into_bytes();
        let envelope = security.seal(&message).unwrap();
        assert_eq!(envelope.len(), 12 + message.len() + 16);
        assert_eq!(security.open(&envelope), Ok(message));
        assert!(nonces.insert(envelope[..12].to_vec()));
    }
    assert_eq!(nonces.len(), 1000);
}

#[test]
fn sealing_twice_gives_different_envelopes() {
    let security = ChaChaPolySecurity::with_key(fixed_key());
    let first = security.seal(b"same message").unwrap();
    let second = security.seal(b"same message").unwrap();
    assert_ne!(first, second);
    assert_eq!(security.open(&first), security.open(&second));
}

#[test]
fn tampering_with_any_byte_is_detected() {
    let security = ChaChaPolySecurity::with_key(fixed_key());
    let message = b"move the mouse to 10, 20";
    let envelope = security.seal_with_nonce(&fixed_nonce(), message).unwrap();
    for position in 0..envelope.len() {
        for flip in [0x01u8, 0x80u8, 0xffu8] {
            let mut forged = envelope.clone();
            forged[position] ^= flip;
            assert_eq!(security.open(&forged), Err(CryptoError::Authentication));
        }
    }
}

#[test]
fn truncated_and_extended_envelopes_are_refused() {
    let security = ChaChaPolySecurity::with_key(fixed_key());
    let envelope = security.seal_with_nonce(&fixed_nonce(), b"0123456789").unwrap();
    assert_eq!(security.open(&envelope[..envelope.len() - 1]), Err(CryptoError::Authentication));
    let mut longer = envelope.clone();
    longer.push(0);
    assert_eq!(security.open(&longer), Err(CryptoError::Authentication));
}

#[test]
fn short_envelopes_are_malformed() {
    let security = ChaChaPolySecurity::with_key(fixed_key());
    assert_eq!(security.open(b""), Err(CryptoError::Malformed));
    assert_eq!(security.open(&[0u8; 11]), Err(CryptoError::Malformed));
    assert_eq!(security.open(&[0u8; 27]), Err(CryptoError::Malformed));
    assert_eq!(security.open(&[0u8; 28]), Err(CryptoError::Authentication));
}

#[test]
fn another_key_does_not_open() {
    let sealer = ChaChaPolySecurity::with_key(fixed_key());
    let mut other_key = fixed_key();
    other_key[0] ^= 1;
    let opener = ChaChaPolySecurity::with_key(other_key);
    let envelope = sealer.seal(b"secret").unwrap();
    assert_eq!(opener.open(&envelope), Err(CryptoError::Authentication));
}

#[test]
fn a_clone_opens_what_its_source_sealed() {
    let security = ChaChaPolySecurity::new().unwrap();
    let copy = security.clone();
    let envelope = security.seal(b"shared").unwrap();
    assert_eq!(copy.open(&envelope), Ok(b"shared".to_vec()));
}
