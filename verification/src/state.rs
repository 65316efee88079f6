//! What the pairing display is told: who is connected, and how to connect.

use vstd::prelude::*;
use vstd::string::StringExecFns;

use crate::json;
use crate::json::{json_model, json_parsed, JsonModel};

verus! {

/// `qrcodegen::QrCode`: a QR code, carried through without a look inside.
#[verifier::external_type_specification]
#[verifier::external_body]
pub struct ExQrCode(qrcodegen::QrCode);

/// What `base64` encodes bytes to, with the standard alphabet and padding.
pub uninterp spec fn base64_encoded(bytes: Seq<u8>) -> Seq<char>;

/// The modules of a QR code, row by row from the top, each row from the
/// left: `true` is a dark module.
pub uninterp spec fn qr_modules(code: qrcodegen::QrCode) -> Seq<Seq<bool>>;

/// The modules of the QR code that `qrcodegen` makes of a text at medium
/// error correction, `None` where the text is too long for any QR code.
pub uninterp spec fn qr_encoded(text: Seq<char>) -> Option<Seq<Seq<bool>>>;

/// Whether the base64 text of so many bytes has a length that fits in
/// `usize`.
pub open spec fn base64_fits(length: nat) -> bool {
    length / 3 * 4 + 4 <= usize::MAX
}

/// `base64::encode`: the base64 text of the bytes. It panics where the
/// length of that text does not fit in `usize`, which `requires` leaves out.
#[verifier::external_body]
fn base64_text(bytes: &[u8]) -> (text: String)
    requires
        base64_fits(bytes@.len()),
    ensures
        text@ == base64_encoded(bytes@),
{
    base64::encode(bytes)
}

/// `QrCode::encode_text` at `QrCodeEcc::Medium`: the QR code of the text,
/// `None` where the text is too long.
#[verifier::external_body]
fn qr_text(text: &str) -> (code: Option<qrcodegen::QrCode>)
    ensures
        code matches Some(made) ==> qr_encoded(text@) == Some(qr_modules(made)),
        code is None ==> qr_encoded(text@) is None,
{
    match qrcodegen::QrCode::encode_text(text, qrcodegen::QrCodeEcc::Medium) {
        Ok(code) => Some(code),
        Err(_) => None,
    }
}

/// A connected client. The name is derived from the client's address and is
/// all that tells two clients apart.
#[derive(Debug, PartialEq, Eq)]
pub struct ClientInfo {
    pub name: String,
}

impl View for ClientInfo {
    type V = Seq<char>;

    open spec fn view(&self) -> Seq<char> {
        self.name@
    }
}

impl Clone for ClientInfo {
    fn clone(&self) -> (copy: Self)
        ensures
            copy == *self,
    {
        ClientInfo { name: self.name.clone() }
    }
}

/// How the command stream is protected.
#[derive(Clone, Debug, PartialEq, Eq)]
pub struct SecurityInfo {
    /// The security kind.
    pub kind: String,
    /// The base64-encoded key.
    pub key_base64: String,
}

/// Where and how a client connects.
#[derive(Clone, Debug, PartialEq, Eq)]
pub struct ServerInfo {
    pub host: String,
    pub port: u16,
    pub security: SecurityInfo,
}

/// The server's address and key, and the clients that are connected.
#[derive(Clone, Debug, PartialEq, Eq)]
pub struct AppState {
    pub server_info: ServerInfo,
    pub connected_clients: Vec<ClientInfo>,
}

impl SecurityInfo {
    /// The JSON object that stands for this.
    pub open spec fn wire_model(&self) -> JsonModel {
        JsonModel::empty_object().with("kind"@, JsonModel::Text(self.kind@)).with(
            "key_base64"@,
            JsonModel::Text(self.key_base64@),
        )
    }

    /// The security kind and the key in base64.
    pub fn new(kind: String, key: &[u8]) -> (info: Self)
        requires
            base64_fits(key@.len()),
        ensures
            info.kind == kind,
            info.key_base64@ == base64_encoded(key@),
    {
        SecurityInfo { kind, key_base64: base64_text(key) }
    }

    /// The JSON value that stands for this.
    pub fn to_json(&self) -> (value: serde_json::Value)
        ensures
            json_model(value) == self.wire_model(),
    {
        let mut value = json::object();
        json::insert(&mut value, "kind", json::string(self.kind.as_str()));
        json::insert(&mut value, "key_base64", json::string(self.key_base64.as_str()));
        value
    }
}

impl ServerInfo {
    /// The JSON object that stands for this.
    pub open spec fn wire_model(&self) -> JsonModel {
        JsonModel::empty_object().with("host"@, JsonModel::Text(self.host@)).with(
            "port"@,
            JsonModel::Integer(self.port as i64),
        ).with("security"@, self.security.wire_model())
    }

    /// Whether a text is a pairing payload of this: the prefix `robo:`, then
    /// JSON text that parses to the object that stands for this.
    pub open spec fn is_pairing_payload(&self, payload: Seq<char>) -> bool {
        &&& payload.len() >= 5
        &&& payload.subrange(0, 5) == "robo:"@
        &&& json_parsed(payload.subrange(5, payload.len() as int)) == Some(self.wire_model())
    }

    /// The JSON value that stands for this.
    pub fn to_json(&self) -> (value: serde_json::Value)
        ensures
            json_model(value) == self.wire_model(),
    {
        let mut value = json::object();
        json::insert(&mut value, "host", json::string(self.host.as_str()));
        json::insert(&mut value, "port", json::integer(self.port as i64));
        json::insert(&mut value, "security", self.security.to_json());
        value
    }

    /// The text that a client scans to learn where and how to connect.
    pub fn pairing_payload(&self) -> (payload: String)
        ensures
            self.is_pairing_payload(payload@),
    {
        let value = self.to_json();
        proof {
            reveal_strlit("kind");
            reveal_strlit("key_base64");
            reveal_strlit("host");
            reveal_strlit("port");
            reveal_strlit("security");
            reveal_strlit("robo:");
            assert(self.security.wire_model().is_record());
            assert(self.wire_model().is_document());
        }
        let text = json::render(&value);
        let mut payload = "robo:".to_owned();
        payload.append(text.as_str());
        proof {
            assert(payload@.subrange(0, 5) =~= "robo:"@);
            assert(payload@.subrange(5, payload@.len() as int) =~= text@);
        }
        payload
    }
}

impl AppState {
    /// The state at startup: nobody is connected.
    pub fn new(host: String, port: u16, security: SecurityInfo) -> (state: Self)
        ensures
            state.server_info.host == host,
            state.server_info.port == port,
            state.server_info.security == security,
            state.connected_clients@ == Seq::<ClientInfo>::empty(),
    {
        AppState { server_info: ServerInfo { host, port, security }, connected_clients: Vec::new() }
    }

    /// The QR code of a pairing payload, `None` where the payload is too
    /// long for one.
    pub fn qr_code(&self) -> (code: Option<qrcodegen::QrCode>)
        ensures
            exists|payload: Seq<char>|
                self.server_info.is_pairing_payload(payload) && match code {
                    Some(made) => #[trigger] qr_encoded(payload) == Some(qr_modules(made)),
                    None => qr_encoded(payload) is None,
                },
    {
        let payload = self.server_info.pairing_payload();
        qr_text(payload.as_str())
    }

    /// The clients that stay when the client called `name` leaves: all those
    /// of another name, in their order.
    pub open spec fn without(clients: Seq<ClientInfo>, name: Seq<char>) -> Seq<ClientInfo> {
        clients.filter(|client: ClientInfo| client.name@ != name)
    }

    /// Records that a client has connected: it comes last.
    pub fn client_connected(&mut self, client: ClientInfo)
        ensures
            final(self).connected_clients@ == old(self).connected_clients@.push(client),
            final(self).server_info == old(self).server_info,
    {
        self.connected_clients.push(client);
    }

    /// Records that a client has disconnected: every client of its name
    /// leaves, the others stay in their order.
    pub fn client_disconnected(&mut self, client: &ClientInfo)
        ensures
            final(self).connected_clients@ == Self::without(
                old(self).connected_clients@,
                client.name@,
            ),
            final(self).server_info == old(self).server_info,
    {
        let ghost before = self.connected_clients@;
        let ghost stays = |other: ClientInfo| other.name@ != client.name@;
        let mut kept: Vec<ClientInfo> = Vec::new();
        let mut i: usize = 0;
        proof {
            reveal(Seq::filter);
            assert(before.take(0).filter(stays) =~= Seq::<ClientInfo>::empty());
        }
        while i < self.connected_clients.len()
            invariant
                i <= before.len(),
                self.connected_clients@ == before,
                stays == (|other: ClientInfo| other.name@ != client.name@),
                kept@ == before.take(i as int).filter(stays),
            decreases before.len() - i,
        {
            proof {
                assert(before.take(i + 1) =~= before.take(i as int) + seq![before[i as int]]);
                Seq::filter_distributes_over_add(before.take(i as int), seq![before[i as int]], stays);
                reveal_with_fuel(Seq::filter, 2);
                assert(seq![before[i as int]].drop_last() =~= Seq::<ClientInfo>::empty());
            }
            if !(self.connected_clients[i].name == client.name) {
                kept.push(self.connected_clients[i].clone());
            }
            i = i + 1;
        }
        proof {
            assert(before.take(i as int) =~= before);
        }
        self.connected_clients = kept;
    }
}

} // verus!
