//! Authenticated encryption with ChaCha20-Poly1305.
//!
//! The cipher is `ring`'s. The library chooses the nonce, frames the
//! envelope and checks the frame; what the cipher computes is named, not
//! stated, by [`chacha20_poly1305_sealed`] and [`chacha20_poly1305_opened`].

use vstd::prelude::*;
use vstd::slice::{slice_subrange, slice_to_vec};

use crate::security::{CryptoError, Security};

verus! {

/// The length of a key, in bytes.
pub const KEY_LEN: usize = 32;

/// The length of a nonce, in bytes.
pub const NONCE_LEN: usize = 12;

/// The length of an authentication tag, in bytes.
pub const TAG_LEN: usize = 16;

/// The longest message that is sealed under one nonce, in bytes: the cipher
/// counts blocks of 64 bytes in 32 bits, and keeps one block for itself.
pub const MAX_MESSAGE_LEN: u64 = 274877906880;

/// The encrypted-transport unit: a nonce, the ciphertext and the tag that
/// authenticates it. On the wire the three follow each other in this order.
pub struct SealedEnvelope {
    pub nonce: Seq<u8>,
    pub ciphertext: Seq<u8>,
    pub tag: Seq<u8>,
}

impl SealedEnvelope {
    /// The nonce and the tag have their fixed lengths.
    pub open spec fn well_formed(self) -> bool {
        self.nonce.len() == NONCE_LEN && self.tag.len() == TAG_LEN
    }

    /// The envelope on the wire.
    pub open spec fn bytes(self) -> Seq<u8> {
        self.nonce + self.ciphertext + self.tag
    }

    /// The ciphertext followed by the tag, as the cipher takes and gives
    /// them.
    pub open spec fn body(self) -> Seq<u8> {
        self.ciphertext + self.tag
    }

    /// The envelope that bytes on the wire hold, where they are long enough
    /// to hold a nonce and a tag.
    pub open spec fn parse(bytes: Seq<u8>) -> Option<SealedEnvelope> {
        if bytes.len() < NONCE_LEN + TAG_LEN {
            None
        } else {
            Some(
                SealedEnvelope {
                    nonce: bytes.subrange(0, NONCE_LEN as int),
                    ciphertext: bytes.subrange(NONCE_LEN as int, bytes.len() - TAG_LEN),
                    tag: bytes.subrange(bytes.len() - TAG_LEN, bytes.len() as int),
                },
            )
        }
    }

    /// Parsing inverts framing.
    pub proof fn law_parse_bytes(self)
        requires
            self.well_formed(),
        ensures
            SealedEnvelope::parse(self.bytes()) == Some(self),
    {
        let bytes = self.bytes();
        let parsed = SealedEnvelope::parse(bytes)->Some_0;
        assert(parsed.nonce =~= self.nonce);
        assert(parsed.ciphertext =~= self.ciphertext);
        assert(parsed.tag =~= self.tag);
    }

    /// Framing inverts parsing: the parts of an envelope are its bytes, and
    /// nothing else.
    pub proof fn law_bytes_parse(bytes: Seq<u8>)
        requires
            bytes.len() >= NONCE_LEN + TAG_LEN,
        ensures
            SealedEnvelope::parse(bytes) matches Some(envelope) && envelope.well_formed()
                && envelope.bytes() == bytes && envelope.body() == bytes.subrange(
                NONCE_LEN as int,
                bytes.len() as int,
            ),
    {
        let envelope = SealedEnvelope::parse(bytes)->Some_0;
        assert(envelope.bytes() =~= bytes);
        assert(envelope.body() =~= bytes.subrange(NONCE_LEN as int, bytes.len() as int));
    }
}

/// What `ring` makes of a message under a key and a nonce, with no
/// associated data: the ciphertext followed by the tag.
pub uninterp spec fn chacha20_poly1305_sealed(
    key: Seq<u8>,
    nonce: Seq<u8>,
    message: Seq<u8>,
) -> Seq<u8>;

/// What `ring` makes of a ciphertext followed by a tag, under a key and a
/// nonce, with no associated data: the message, or `None` where it refuses
/// to open.
pub uninterp spec fn chacha20_poly1305_opened(
    key: Seq<u8>,
    nonce: Seq<u8>,
    body: Seq<u8>,
) -> Option<Seq<u8>>;

/// `SystemRandom::fill` on a fresh array: random bytes from the operating
/// system, `None` where it gives none. Nothing is claimed of the bytes.
#[verifier::external_body]
fn random_bytes<const N: usize>() -> (bytes: Option<[u8; N]>) {
    let mut bytes = [0u8; N];
    match ring::rand::SecureRandom::fill(&ring::rand::SystemRandom::new(), &mut bytes) {
        Ok(()) => Some(bytes),
        Err(_) => None,
    }
}

/// `LessSafeKey::seal_in_place_append_tag` for `CHACHA20_POLY1305`, with no
/// associated data, on a copy of the message. `ring` refuses a message
/// longer than [`MAX_MESSAGE_LEN`] and no other. What it returns is the
/// ciphertext, as long as the message, followed by the tag. Of
/// `open_in_place` on that result the contract says two things: that it gives
/// the message back, and that it refuses the same ciphertext under any other
/// tag, because it computes the tag anew from key, nonce and ciphertext and
/// compares.
#[verifier::external_body]
fn aead_seal(key: &[u8; KEY_LEN], nonce: &[u8; NONCE_LEN], message: &[u8]) -> (body: Option<Vec<u8>>)
    ensures
        body is Some <==> message@.len() <= MAX_MESSAGE_LEN,
        body matches Some(sealed) ==> sealed@ == chacha20_poly1305_sealed(
            key@,
            nonce@,
            message@,
        ),
        body matches Some(sealed) ==> sealed@.len() == message@.len() + TAG_LEN,
        body matches Some(sealed) ==> chacha20_poly1305_opened(key@, nonce@, sealed@) == Some(
            message@,
        ),
        body matches Some(sealed) ==> forall|tag: Seq<u8>|
            tag.len() == TAG_LEN && tag != sealed@.subrange(
                message@.len() as int,
                sealed@.len() as int,
            ) ==> (#[trigger] chacha20_poly1305_opened(
                key@,
                nonce@,
                sealed@.subrange(0, message@.len() as int) + tag,
            )) is None,
{
    let unbound = ring::aead::UnboundKey::new(&ring::aead::CHACHA20_POLY1305, key).ok()?;
    let mut buffer = message.to_vec();
    ring::aead::LessSafeKey::new(unbound).seal_in_place_append_tag(
        ring::aead::Nonce::assume_unique_for_key(*nonce),
        ring::aead::Aad::empty(),
        &mut buffer,
    ).ok()?;
    Some(buffer)
}

/// `LessSafeKey::open_in_place` for `CHACHA20_POLY1305`, with no associated
/// data, on a copy of the ciphertext and tag. What it returns on success is
/// as long as the ciphertext.
#[verifier::external_body]
fn aead_open(key: &[u8; KEY_LEN], nonce: &[u8; NONCE_LEN], body: &[u8]) -> (message: Option<Vec<u8>>)
    ensures
        message matches Some(opened) ==> chacha20_poly1305_opened(key@, nonce@, body@) == Some(
            opened@,
        ),
        message is None ==> chacha20_poly1305_opened(key@, nonce@, body@) is None,
        message matches Some(opened) ==> opened@.len() + TAG_LEN == body@.len(),
{
    let unbound = ring::aead::UnboundKey::new(&ring::aead::CHACHA20_POLY1305, key).ok()?;
    let mut buffer = body.to_vec();
    let opened = ring::aead::LessSafeKey::new(unbound).open_in_place(
        ring::aead::Nonce::assume_unique_for_key(*nonce),
        ring::aead::Aad::empty(),
        &mut buffer,
    ).ok()?;
    Some(opened.to_vec())
}

/// A security implementation that uses ChaCha20-Poly1305
/// for symmetric, authenticated encryption.
#[derive(Clone, Debug)]
pub struct ChaChaPolySecurity {
    key: [u8; KEY_LEN],
}

impl ChaChaPolySecurity {
    /// The key.
    pub closed spec fn key_bytes(&self) -> Seq<u8> {
        self.key@
    }

    /// The envelope that sealing a message under a nonce gives.
    pub open spec fn sealed(&self, nonce: Seq<u8>, message: Seq<u8>) -> Seq<u8> {
        nonce + chacha20_poly1305_sealed(self.key_bytes(), nonce, message)
    }

    /// An envelope with the nonce and the ciphertext of `sealed`, and
    /// another tag.
    pub open spec fn tag_replaced(sealed: Seq<u8>, forged: Seq<u8>) -> bool {
        match (SealedEnvelope::parse(sealed), SealedEnvelope::parse(forged)) {
            (Some(genuine), Some(other)) => other.nonce == genuine.nonce && other.ciphertext
                == genuine.ciphertext && other.tag != genuine.tag,
            _ => false,
        }
    }

    /// A security layer with a fresh random key of the cipher's key length;
    /// `Err` where the system's random source gives none. Which key it is,
    /// and whether there is one, is the random source's to decide.
    pub fn new() -> (security: Result<Self, CryptoError>)
        ensures
            security matches Ok(made) ==> made.key_bytes().len() == KEY_LEN,
            security matches Err(error) ==> error == CryptoError::RandomSource,
    {
        match random_bytes::<KEY_LEN>() {
            Some(key) => Ok(ChaChaPolySecurity::with_key(key)),
            None => Err(CryptoError::RandomSource),
        }
    }

    /// A security layer with the given key.
    pub fn with_key(key: [u8; KEY_LEN]) -> (security: Self)
        ensures
            security.key_bytes() == key@,
    {
        ChaChaPolySecurity { key }
    }

    /// Seals a message under the given nonce. The envelope is the nonce, the
    /// ciphertext and the tag. It opens to the message, and is refused as
    /// not authentic when its tag is replaced by any other.
    pub fn seal_with_nonce(&self, nonce: &[u8; NONCE_LEN], message: &[u8]) -> (envelope: Result<
        Vec<u8>,
        CryptoError,
    >)
        ensures
            envelope is Ok <==> message@.len() <= MAX_MESSAGE_LEN,
            envelope matches Err(error) ==> error == CryptoError::Seal,
            envelope matches Ok(sealed) ==> {
                &&& sealed@ == self.sealed(nonce@, message@)
                &&& sealed@.len() == NONCE_LEN + message@.len() + TAG_LEN
                &&& self.opened(sealed@) == Ok::<Seq<u8>, CryptoError>(message@)
                &&& forall|forged: Seq<u8>| #[trigger]
                    Self::tag_replaced(sealed@, forged) ==> self.opened(forged) == Err::<
                        Seq<u8>,
                        CryptoError,
                    >(CryptoError::Authentication)
            },
    {
        match aead_seal(&self.key, nonce, message) {
            None => Err(CryptoError::Seal),
            Some(mut body) => {
                let ghost sealed_body = body@;
                let mut sealed = slice_to_vec(nonce.as_slice());
                sealed.append(&mut body);
                proof {
                    let n = message@.len() as int;
                    assert(sealed@ == nonce@ + sealed_body);
                    SealedEnvelope::law_bytes_parse(sealed@);
                    let genuine = SealedEnvelope::parse(sealed@)->Some_0;
                    assert(genuine.nonce == nonce@);
                    assert(genuine.body() == sealed_body);
                    assert(genuine.ciphertext == sealed_body.subrange(0, n));
                    assert(genuine.tag == sealed_body.subrange(n, sealed_body.len() as int));
                    assert forall|forged: Seq<u8>| #[trigger]
                        Self::tag_replaced(sealed@, forged) implies self.opened(forged) == Err::<
                        Seq<u8>,
                        CryptoError,
                    >(CryptoError::Authentication) by {
                        let other = SealedEnvelope::parse(forged)->Some_0;
                        assert(other.tag.len() == TAG_LEN);
                        assert(other.body() == sealed_body.subrange(0, n) + other.tag);
                    }
                }
                Ok(sealed)
            },
        }
    }
}

impl Security for ChaChaPolySecurity {
    open spec fn kind_name(&self) -> Seq<char> {
        "chachapoly"@
    }

    open spec fn shared_key(&self) -> Option<Seq<u8>> {
        Some(self.key_bytes())
    }

    /// An envelope too short for a nonce and a tag is malformed. Of any
    /// other the message is what the cipher opens ciphertext and tag to
    /// under the nonce, and where it refuses, the envelope is not authentic.
    open spec fn opened(&self, envelope: Seq<u8>) -> Result<Seq<u8>, CryptoError> {
        match SealedEnvelope::parse(envelope) {
            None => Err(CryptoError::Malformed),
            Some(parts) => match chacha20_poly1305_opened(
                self.key_bytes(),
                parts.nonce,
                parts.body(),
            ) {
                Some(message) => Ok(message),
                None => Err(CryptoError::Authentication),
            },
        }
    }

    fn kind(&self) -> (kind: &'static str) {
        "chachapoly"
    }

    fn key(&self) -> (key: Option<&[u8]>) {
        Some(self.key.as_slice())
    }

    /// Seals under a fresh random nonce. Fails where the random source does,
    /// and on a message longer than [`MAX_MESSAGE_LEN`].
    fn seal(&self, value: &[u8]) -> (envelope: Result<Vec<u8>, CryptoError>)
        ensures
            value@.len() > MAX_MESSAGE_LEN ==> envelope is Err,
            envelope matches Err(error) ==> error == CryptoError::RandomSource || (error
                == CryptoError::Seal && value@.len() > MAX_MESSAGE_LEN),
            envelope matches Ok(sealed) ==> {
                &&& sealed@.len() == NONCE_LEN + value@.len() + TAG_LEN
                &&& sealed@ == self.sealed(sealed@.subrange(0, NONCE_LEN as int), value@)
                &&& forall|forged: Seq<u8>| #[trigger]
                    Self::tag_replaced(sealed@, forged) ==> self.opened(forged) == Err::<
                        Seq<u8>,
                        CryptoError,
                    >(CryptoError::Authentication)
            },
    {
        match random_bytes::<NONCE_LEN>() {
            None => Err(CryptoError::RandomSource),
            Some(nonce) => {
                let envelope = self.seal_with_nonce(&nonce, value);
                proof {
                    if envelope is Ok {
                        assert(envelope->Ok_0@.subrange(0, NONCE_LEN as int) =~= nonce@);
                    }
                }
                envelope
            },
        }
    }

    /// The message in an envelope is shorter than the envelope by the nonce
    /// and the tag.
    fn open(&self, value: &[u8]) -> (message: Result<Vec<u8>, CryptoError>)
        ensures
            message matches Ok(opened) ==> opened@.len() + NONCE_LEN + TAG_LEN == value@.len(),
    {
        if value.len() < NONCE_LEN + TAG_LEN {
            return Err(CryptoError::Malformed);
        }
        let mut nonce = [0u8; NONCE_LEN];
        let mut i: usize = 0;
        while i < NONCE_LEN
            invariant
                i <= NONCE_LEN,
                value@.len() >= NONCE_LEN + TAG_LEN,
                forall|j: int| 0 <= j < i ==> nonce@[j] == value@[j],
            decreases NONCE_LEN - i,
        {
            nonce[i] = value[i];
            i = i + 1;
        }
        proof {
            SealedEnvelope::law_bytes_parse(value@);
            assert(nonce@ =~= value@.subrange(0, NONCE_LEN as int));
        }
        let body = slice_subrange(value, NONCE_LEN, value.len());
        match aead_open(&self.key, &nonce, body) {
            Some(message) => Ok(message),
            None => Err(CryptoError::Authentication),
        }
    }
}

} // verus!
