//! No encryption.

use vstd::prelude::*;
use vstd::slice::slice_to_vec;

use crate::security::{CryptoError, Security};

verus! {

/// A `Security` implementation that does not encrypt.
#[derive(Clone, Copy, Debug)]
pub struct EmptySecurity;

/// Another name of [`EmptySecurity`].
pub type NoSecurity = EmptySecurity;

impl Security for EmptySecurity {
    open spec fn kind_name(&self) -> Seq<char> {
        "none"@
    }

    open spec fn shared_key(&self) -> Option<Seq<u8>> {
        None
    }

    open spec fn opened(&self, envelope: Seq<u8>) -> Result<Seq<u8>, CryptoError> {
        Ok(envelope)
    }

    fn kind(&self) -> (kind: &'static str) {
        "none"
    }

    fn key(&self) -> (key: Option<&[u8]>) {
        None
    }

    /// The envelope is the message itself.
    fn seal(&self, value: &[u8]) -> (envelope: Result<Vec<u8>, CryptoError>)
        ensures
            envelope matches Ok(sealed) && sealed@ == value@,
    {
        Ok(slice_to_vec(value))
    }

    /// The message is the envelope itself.
    fn open(&self, value: &[u8]) -> (message: Result<Vec<u8>, CryptoError>)
        ensures
            message matches Ok(opened) && opened@ == value@,
    {
        Ok(slice_to_vec(value))
    }
}

} // verus!
