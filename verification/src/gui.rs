//! What the pairing display needs from the server before it starts.

use vstd::prelude::*;

use crate::security::Security;
use crate::state::{base64_encoded, base64_fits, SecurityInfo};
use crate::utils::same_text;

verus! {

/// The key that a security layer shares, or no bytes where it shares none.
pub open spec fn shared_key_or_empty<S: Security>(security: &S) -> Seq<u8> {
    match security.shared_key() {
        Some(key) => key,
        None => Seq::empty(),
    }
}

/// The address that a client is told: `host` itself, unless `host` is the
/// unspecified address `0.0.0.0`. A server that listens on every address is
/// reached at the machine's own, which `local_ip` is asked for then, and then
/// only.
pub fn resolve_host<F: FnOnce() -> String>(host: &str, local_ip: F) -> (resolved: String)
    requires
        call_requires(local_ip, ()),
    ensures
        host@ != "0.0.0.0"@ ==> resolved@ == host@,
        host@ == "0.0.0.0"@ ==> call_ensures(local_ip, (), resolved),
{
    if same_text(host, "0.0.0.0") {
        local_ip()
    } else {
        host.to_owned()
    }
}

/// What the display shows of a security layer: its kind, and its key in
/// base64, which is the base64 of no bytes where the layer has no key.
pub fn derive_security_info<S: Security>(security: &S) -> (info: SecurityInfo)
    requires
        base64_fits(shared_key_or_empty(security).len()),
    ensures
        info.kind@ == security.kind_name(),
        info.key_base64@ == base64_encoded(shared_key_or_empty(security)),
{
    let kind = security.kind().to_owned();
    match security.key() {
        Some(key) => SecurityInfo::new(kind, key),
        None => {
            let empty: Vec<u8> = Vec::new();
            SecurityInfo::new(kind, empty.as_slice())
        },
    }
}

} // verus!
