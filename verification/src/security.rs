//! The encryption capability: an optional sealed box around each message.

pub mod chachapoly;
pub mod empty;

pub use chachapoly::ChaChaPolySecurity;
pub use empty::{EmptySecurity, NoSecurity};

use vstd::prelude::*;

verus! {

/// Why a message was not sealed or not opened.
#[derive(Clone, Copy, Debug, PartialEq, Eq, Structural)]
pub enum CryptoError {
    /// The system's random source gave no bytes.
    RandomSource,
    /// The message is too long to be sealed under one nonce.
    Seal,
    /// The envelope is too short to hold a nonce and a tag.
    Malformed,
    /// The envelope is not one that was sealed with this key.
    Authentication,
}

/// The bytes of a result.
pub open spec fn bytes_view(result: Result<Vec<u8>, CryptoError>) -> Result<Seq<u8>, CryptoError> {
    match result {
        Ok(bytes) => Ok(bytes@),
        Err(error) => Err(error),
    }
}

/// An optional layer of encryption.
pub trait Security {
    /// The kind of security, as the client is told it.
    spec fn kind_name(&self) -> Seq<char>;

    /// The key that is shared with the client, if one is used.
    spec fn shared_key(&self) -> Option<Seq<u8>>;

    /// What opening an envelope gives: the message in it, or the reason why
    /// the envelope is refused.
    spec fn opened(&self, envelope: Seq<u8>) -> Result<Seq<u8>, CryptoError>;

    /// The kind of security.
    fn kind(&self) -> (kind: &'static str)
        ensures
            kind@ == self.kind_name(),
    ;

    /// The key for encryption that is shared with the client, if used.
    fn key(&self) -> (key: Option<&[u8]>)
        ensures
            key matches Some(bytes) ==> self.shared_key() == Some(bytes@),
            key is None ==> self.shared_key() is None,
    ;

    /// Encrypts a message (if needed). Whatever envelope comes back opens to
    /// the message.
    fn seal(&self, value: &[u8]) -> (envelope: Result<Vec<u8>, CryptoError>)
        ensures
            envelope matches Ok(sealed) ==> self.opened(sealed@) == Ok::<Seq<u8>, CryptoError>(
                value@,
            ),
    ;

    /// Decrypts a message (if needed).
    fn open(&self, value: &[u8]) -> (message: Result<Vec<u8>, CryptoError>)
        ensures
            bytes_view(message) == self.opened(value@),
    ;
}

} // verus!
