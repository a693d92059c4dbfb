//! RFC6455 WebSocket upgrade handshake for `exec`/`attach`/`port-forward`:
//! request headers, response verification and subprotocol negotiation.

use vstd::prelude::*;
use vstd::slice::slice_to_vec;
use sha1::{Digest, Sha1};

verus! {

use crate::strutil::{str_eq, str_eq_ignore_ascii_case, eq_ignore_ascii_case};

/// The 20-byte SHA-1 digest of a byte sequence, as `sha1::Sha1` computes it.
pub uninterp spec fn sha1_of(data: Seq<u8>) -> Seq<u8>;

/// Standard-alphabet, padded base64 of a byte sequence, as `base64::encode`
/// produces it.
pub uninterp spec fn base64_of(data: Seq<u8>) -> Seq<char>;

/// Relies on `sha1::Sha1::digest` (RustCrypto `Digest`): the 20-byte SHA-1
/// digest, a function of the input bytes alone.
#[verifier::external_body]
fn sha1_digest(data: &[u8]) -> (r: Vec<u8>)
    ensures
        r@ == sha1_of(data@),
        r@.len() == 20,
{
    Sha1::digest(data).to_vec()
}

/// Relies on `base64::encode`: standard-alphabet padded base64, a function of
/// the input bytes alone; the output holds four characters per three input
/// bytes, rounded up by padding.
#[verifier::external_body]
fn base64_encode(data: &[u8]) -> (r: String)
    ensures
        r@ == base64_of(data@),
        r@.len() == 4 * ((data@.len() + 2) / 3),
{
    base64::encode(data)
}

/// Relies on `rand::random`: sixteen bytes from the thread-local generator.
/// Nothing is promised of their values.
#[verifier::external_body]
fn random_key_bytes() -> (r: Vec<u8>)
    ensures
        r@.len() == 16,
{
    let bytes: [u8; 16] = rand::random();
    bytes.to_vec()
}

/// The fixed GUID that RFC6455 appends to the client key before hashing.
pub open spec fn ws_guid() -> Seq<char> {
    "258EAFA5-E914-47DA-95CA-C5AB0DC85B11"@
}

/// The accept token the server must echo for a given client key.
pub open spec fn accept_key_of(key: Seq<u8>) -> Seq<char> {
    base64_of(sha1_of(key + vstd::utf8::encode_utf8(ws_guid())))
}

/// Computes `base64(SHA1(request_key + GUID))`, the expected value of the
/// `Sec-WebSocket-Accept` header.
pub fn derive_accept_key(request_key: &[u8]) -> (r: String)
    ensures
        r@ == accept_key_of(request_key@),
{
    let mut input = slice_to_vec(request_key);
    let mut guid = "258EAFA5-E914-47DA-95CA-C5AB0DC85B11".as_bytes_vec();
    input.append(&mut guid);
    let digest = sha1_digest(input.as_slice());
    base64_encode(digest.as_slice())
}

/// Generates the `Sec-WebSocket-Key` header value: a random 16-byte nonce in
/// base64, which is always 24 characters long.
pub fn sec_websocket_key() -> (r: String)
    ensures
        r@.len() == 24,
        exists|b: Seq<u8>| b.len() == 16 && r@ == #[trigger] base64_of(b),
{
    let nonce = random_key_bytes();
    base64_encode(nonce.as_slice())
}

/// The binary channel subprotocols spoken over the upgraded socket.
#[derive(Debug, Clone, Copy, PartialEq, Eq, Structural)]
pub enum StreamProtocol {
    /// Binary subprotocol v4.
    V4,
    /// Binary subprotocol v5, which adds per-stream CLOSE signals.
    V5,
}

impl StreamProtocol {
    /// The negotiated name of this subprotocol on the wire.
    pub open spec fn spec_str(self) -> Seq<char> {
        match self {
            StreamProtocol::V4 => "v4.channel.k8s.io"@,
            StreamProtocol::V5 => "v5.channel.k8s.io"@,
        }
    }

    pub fn as_str(&self) -> (r: &'static str)
        ensures
            r@ == self.spec_str(),
    {
        match self {
            StreamProtocol::V4 => "v4.channel.k8s.io",
            StreamProtocol::V5 => "v5.channel.k8s.io",
        }
    }

    pub fn as_bytes(&self) -> (r: &'static [u8])
        ensures
            r@ == vstd::utf8::encode_utf8(self.spec_str()),
    {
        self.as_str().as_bytes()
    }

    /// Whether the subprotocol carries CLOSE frames per stream.
    pub fn supports_stream_close(&self) -> (r: bool)
        ensures
            r == (self is V5),
    {
        match self {
            StreamProtocol::V4 => false,
            StreamProtocol::V5 => true,
        }
    }
}

/// What the upgrade verifier reads from the server's `101` response: the
/// status code and the four handshake headers, each `None` when absent or
/// not readable as text.
pub struct UpgradeResponse {
    /// HTTP status code of the response.
    pub code: u16,
    /// The `Upgrade` header.
    pub upgrade: Option<String>,
    /// The `Connection` header.
    pub connection: Option<String>,
    /// The `Sec-WebSocket-Accept` header.
    pub accept: Option<String>,
    /// The `Sec-WebSocket-Protocol` header.
    pub protocol: Option<String>,
}

/// Why upgrading to a WebSocket connection failed.
#[derive(Debug, Clone, Copy, PartialEq, Eq, Structural)]
pub enum UpgradeConnectionError {
    /// The server did not respond with a `101 Switching Protocols` status.
    ProtocolSwitch(u16),
    /// The `Upgrade` header was not set to `websocket` (case insensitive).
    MissingUpgradeWebSocketHeader,
    /// The `Connection` header was not set to `Upgrade` (case insensitive).
    MissingConnectionUpgradeHeader,
    /// The `Sec-WebSocket-Accept` key mismatched.
    SecWebSocketAcceptKeyMismatch,
    /// The `Sec-WebSocket-Protocol` header named no supported subprotocol.
    SecWebSocketProtocolMismatch,
}

/// Whether a header is present and equals `want` up to ASCII case.
pub open spec fn header_eq_ci(h: Option<String>, want: Seq<char>) -> bool {
    h matches Some(v) && eq_ignore_ascii_case(v@, want)
}

/// The subprotocol a response carries, when it is one this library speaks.
pub open spec fn spec_subprotocol(res: UpgradeResponse) -> Option<StreamProtocol> {
    if res.protocol matches Some(p) && p@ == StreamProtocol::V4.spec_str() {
        Some(StreamProtocol::V4)
    } else if res.protocol matches Some(p) && p@ == StreamProtocol::V5.spec_str() {
        Some(StreamProtocol::V5)
    } else {
        None
    }
}

/// The outcome of checking an upgrade response against RFC6455 for the key
/// that was sent: the checks run in order and the first violated one names
/// the error.
pub open spec fn spec_verify_response(res: UpgradeResponse, key: Seq<char>) -> Result<
    StreamProtocol,
    UpgradeConnectionError,
> {
    if res.code != 101 {
        Err(UpgradeConnectionError::ProtocolSwitch(res.code))
    } else if !header_eq_ci(res.upgrade, "websocket"@) {
        Err(UpgradeConnectionError::MissingUpgradeWebSocketHeader)
    } else if !header_eq_ci(res.connection, "upgrade"@) {
        Err(UpgradeConnectionError::MissingConnectionUpgradeHeader)
    } else if !(res.accept matches Some(a) && a@ == accept_key_of(vstd::utf8::encode_utf8(key))) {
        Err(UpgradeConnectionError::SecWebSocketAcceptKeyMismatch)
    } else {
        match spec_subprotocol(res) {
            Some(p) => Ok(p),
            None => Err(UpgradeConnectionError::SecWebSocketProtocolMismatch),
        }
    }
}

/// Returns the subprotocol of the response.
pub fn get_subprotocol(res: &UpgradeResponse) -> (r: Option<StreamProtocol>)
    ensures
        r == spec_subprotocol(*res),
{
    match &res.protocol {
        Some(p) => {
            if str_eq(p.as_str(), "v4.channel.k8s.io") {
                Some(StreamProtocol::V4)
            } else if str_eq(p.as_str(), "v5.channel.k8s.io") {
                Some(StreamProtocol::V5)
            } else {
                None
            }
        },
        None => None,
    }
}

/// Verifies an upgrade response according to RFC6455, with subprotocol
/// verification added, and returns the negotiated subprotocol.
pub fn verify_response(res: &UpgradeResponse, key: &str) -> (r: Result<
    StreamProtocol,
    UpgradeConnectionError,
>)
    ensures
        r == spec_verify_response(*res, key@),
{
    if res.code != 101 {
        return Err(UpgradeConnectionError::ProtocolSwitch(res.code));
    }
    let upgrade_ok = match &res.upgrade {
        Some(h) => str_eq_ignore_ascii_case(h.as_str(), "websocket"),
        None => false,
    };
    if !upgrade_ok {
        return Err(UpgradeConnectionError::MissingUpgradeWebSocketHeader);
    }
    let connection_ok = match &res.connection {
        Some(h) => str_eq_ignore_ascii_case(h.as_str(), "upgrade"),
        None => false,
    };
    if !connection_ok {
        return Err(UpgradeConnectionError::MissingConnectionUpgradeHeader);
    }
    let expected = derive_accept_key(key.as_bytes());
    let accept_ok = match &res.accept {
        Some(h) => str_eq(h.as_str(), expected.as_str()),
        None => false,
    };
    if !accept_ok {
        return Err(UpgradeConnectionError::SecWebSocketAcceptKeyMismatch);
    }
    match get_subprotocol(res) {
        Some(p) => Ok(p),
        None => Err(UpgradeConnectionError::SecWebSocketProtocolMismatch),
    }
}

/// The headers a WebSocket upgrade request carries, ready for the transport
/// to copy onto the outgoing `GET`.
pub struct UpgradeRequestHeaders {
    /// The `Connection` header value.
    pub connection: String,
    /// The `Upgrade` header value.
    pub upgrade: String,
    /// The `Sec-WebSocket-Version` header value.
    pub sec_websocket_version: String,
    /// The `Sec-WebSocket-Key` header value.
    pub sec_websocket_key: String,
    /// The `Sec-WebSocket-Protocol` values, in preference order.
    pub sec_websocket_protocol: Vec<String>,
}

impl UpgradeRequestHeaders {
    /// The fixed upgrade headers for a given client key, with no subprotocol
    /// preference yet.
    pub fn new(key: String) -> (r: UpgradeRequestHeaders)
        ensures
            r.connection@ == "Upgrade"@,
            r.upgrade@ == "websocket"@,
            r.sec_websocket_version@ == "13"@,
            r.sec_websocket_key == key,
            r.sec_websocket_protocol@.len() == 0,
    {
        UpgradeRequestHeaders {
            connection: "Upgrade".to_owned(),
            upgrade: "websocket".to_owned(),
            sec_websocket_version: "13".to_owned(),
            sec_websocket_key: key,
            sec_websocket_protocol: Vec::new(),
        }
    }
}

impl StreamProtocol {
    /// Sets the subprotocol preference for `exec` and `attach`: v5 first for
    /// its CLOSE signals, then v4 for its `Status` object on the error
    /// channel.
    pub fn add_to_exec_headers(headers: &mut UpgradeRequestHeaders)
        ensures
            final(headers).sec_websocket_protocol@.len() == 2,
            final(headers).sec_websocket_protocol@[0]@ == StreamProtocol::V5.spec_str(),
            final(headers).sec_websocket_protocol@[1]@ == StreamProtocol::V4.spec_str(),
            final(headers).connection == old(headers).connection,
            final(headers).upgrade == old(headers).upgrade,
            final(headers).sec_websocket_version == old(headers).sec_websocket_version,
            final(headers).sec_websocket_key == old(headers).sec_websocket_key,
    {
        let mut protocols: Vec<String> = Vec::new();
        protocols.push(StreamProtocol::V5.as_str().to_owned());
        protocols.push(StreamProtocol::V4.as_str().to_owned());
        headers.sec_websocket_protocol = protocols;
    }

    /// Sets the subprotocol preference for port-forwarding, where only v4 is
    /// served.
    pub fn add_to_portforward_headers(headers: &mut UpgradeRequestHeaders)
        ensures
            final(headers).sec_websocket_protocol@.len() == 1,
            final(headers).sec_websocket_protocol@[0]@ == StreamProtocol::V4.spec_str(),
            final(headers).connection == old(headers).connection,
            final(headers).upgrade == old(headers).upgrade,
            final(headers).sec_websocket_version == old(headers).sec_websocket_version,
            final(headers).sec_websocket_key == old(headers).sec_websocket_key,
    {
        let mut protocols: Vec<String> = Vec::new();
        protocols.push(StreamProtocol::V4.as_str().to_owned());
        headers.sec_websocket_protocol = protocols;
    }
}

} // verus!
