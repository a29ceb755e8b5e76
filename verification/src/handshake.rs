use vstd::prelude::*;
use vstd::string::StringSliceAdditionalSpecFns;

use crate::header::{
    bytes_eq, contains, contains_bytes, header_is_text, is_text, lowercase, split_commas,
    split_on_commas, to_lowercase, trim, trim_bytes,
};

verus! {

/// What `actix_http::ws::hash_key` answers for a client's `Sec-WebSocket-Key`:
/// the value of the `Sec-WebSocket-Accept` header.
pub uninterp spec fn ws_accept_key(key: Seq<u8>) -> Seq<u8>;

/// Calls `actix_http::ws::hash_key`; the contract names its result, which the
/// signature there fixes at 28 bytes.
#[verifier::external_body]
fn hash_key(key: &[u8]) -> (r: Vec<u8>)
    ensures
        r@ == ws_accept_key(key@),
        r@.len() == 28,
{
    actix_http::ws::hash_key(key).to_vec()
}

/// Why a request cannot be upgraded to a websocket.
#[derive(Clone, Copy, PartialEq, Eq, Structural, Debug)]
pub enum HandshakeError {
    /// Only the GET method is allowed.
    GetMethodRequired,
    /// The `Upgrade` header does not ask for a websocket.
    NoWebsocketUpgrade,
    /// The `Connection` header does not ask for an upgrade.
    NoConnectionUpgrade,
    /// There is no `Sec-WebSocket-Version` header.
    NoVersionHeader,
    /// The websocket version is not 13, 8 or 7.
    UnsupportedVersion,
    /// There is no `Sec-WebSocket-Key` header.
    BadWebsocketKey,
}

/// What the handshake reads of a request: its method, and the first value of
/// each header that it looks at (all values of `Connection`).
pub struct HandshakeRequest {
    pub method: Vec<u8>,
    pub upgrade: Option<Vec<u8>>,
    pub connection: Vec<Vec<u8>>,
    pub version: Option<Vec<u8>>,
    pub key: Option<Vec<u8>>,
    pub protocol: Option<Vec<u8>>,
}

/// The response that accepts an upgrade: its status, the `Upgrade`,
/// `Transfer-Encoding` and `Sec-WebSocket-Accept` header values and the
/// chosen subprotocol, if any.
pub struct HandshakeResponse {
    pub status: u16,
    pub upgrade: Vec<u8>,
    pub transfer_encoding: Vec<u8>,
    pub accept: Vec<u8>,
    pub protocol: Option<Vec<u8>>,
}

pub open spec fn values_view(values: Seq<Vec<u8>>) -> Seq<Seq<u8>> {
    values.map_values(|v: Vec<u8>| v@)
}

pub open spec fn opt_view(o: Option<Vec<u8>>) -> Option<Seq<u8>> {
    match o {
        Some(v) => Some(v@),
        None => None,
    }
}

/// The status code "101 Switching Protocols".
pub open spec fn switching_protocols() -> u16 {
    101
}

pub open spec fn get_bytes() -> Seq<u8> {
    seq![71u8, 69u8, 84u8]
}

pub open spec fn websocket_bytes() -> Seq<u8> {
    seq![119u8, 101u8, 98u8, 115u8, 111u8, 99u8, 107u8, 101u8, 116u8]
}

pub open spec fn chunked_bytes() -> Seq<u8> {
    seq![99u8, 104u8, 117u8, 110u8, 107u8, 101u8, 100u8]
}

pub open spec fn close_bytes() -> Seq<u8> {
    seq![99u8, 108u8, 111u8, 115u8, 101u8]
}

pub open spec fn upgrade_bytes() -> Seq<u8> {
    seq![117u8, 112u8, 103u8, 114u8, 97u8, 100u8, 101u8]
}

/// The `k`-th comma-separated option of a header value, trimmed, is `word`
/// when compared without regard to ASCII case (`word` in lower case).
pub open spec fn option_is(v: Seq<u8>, k: int, word: Seq<u8>) -> bool {
    lowercase(trim(split_commas(v)[k])) == word
}

/// A header value reads as text and one of its options is `word`.
pub open spec fn value_lists(v: Seq<u8>, word: Seq<u8>) -> bool {
    header_is_text(v) && exists|k: int|
        0 <= k < split_commas(v).len() && #[trigger] option_is(v, k, word)
}

/// Whether a request with these `Connection` header values asks for an
/// upgrade, as `RequestHead::upgrade` decides it: no value that reads as text
/// lists "close", and one lists "upgrade".
pub open spec fn connection_upgrade(values: Seq<Seq<u8>>) -> bool {
    &&& forall|i: int| 0 <= i < values.len() ==> !value_lists(#[trigger] values[i], close_bytes())
    &&& exists|i: int| 0 <= i < values.len() && value_lists(#[trigger] values[i], upgrade_bytes())
}

/// The `Upgrade` header reads as text and, in lower case, holds "websocket".
pub open spec fn asks_websocket(upgrade: Option<Seq<u8>>) -> bool {
    match upgrade {
        Some(v) => header_is_text(v) && contains_bytes(lowercase(v), websocket_bytes()),
        None => false,
    }
}

/// The versions that the handshake accepts: "13", "8" and "7".
pub open spec fn supported_version(v: Seq<u8>) -> bool {
    v == seq![49u8, 51u8] || v == seq![56u8] || v == seq![55u8]
}

/// The first error that the handshake finds in a request, if any, checked in
/// this order: method, `Upgrade`, `Connection`, presence and value of the
/// version, presence of the key.
pub open spec fn handshake_error(req: HandshakeRequest) -> Option<HandshakeError> {
    if req.method@ != get_bytes() {
        Some(HandshakeError::GetMethodRequired)
    } else if !asks_websocket(opt_view(req.upgrade)) {
        Some(HandshakeError::NoWebsocketUpgrade)
    } else if !connection_upgrade(values_view(req.connection@)) {
        Some(HandshakeError::NoConnectionUpgrade)
    } else if req.version is None {
        Some(HandshakeError::NoVersionHeader)
    } else if !supported_version(req.version->0@) {
        Some(HandshakeError::UnsupportedVersion)
    } else if req.key is None {
        Some(HandshakeError::BadWebsocketKey)
    } else {
        None
    }
}

/// The first piece, from index `i` on, that after trimming is one of `protocols`.
pub open spec fn first_supported_from(parts: Seq<Seq<u8>>, protocols: Seq<Seq<u8>>, i: int) -> Option<
    Seq<u8>,
>
    decreases parts.len() - i,
{
    if i < 0 || i >= parts.len() {
        None
    } else if protocols.contains(trim(parts[i])) {
        Some(trim(parts[i]))
    } else {
        first_supported_from(parts, protocols, i + 1)
    }
}

/// The subprotocol that the handshake agrees to: the first one that the client
/// lists, in its order, that the server knows too.
pub open spec fn selected_protocol(header: Option<Seq<u8>>, protocols: Seq<Seq<u8>>) -> Option<
    Seq<u8>,
> {
    match header {
        Some(v) => if header_is_text(v) {
            first_supported_from(split_commas(v), protocols, 0)
        } else {
            None
        },
        None => None,
    }
}

pub open spec fn protocols_view(protocols: Seq<&str>) -> Seq<Seq<u8>> {
    protocols.map_values(|p: &str| p.spec_bytes())
}

fn has_websocket_upgrade(upgrade: &Option<Vec<u8>>) -> (r: bool)
    ensures
        r == asks_websocket(opt_view(*upgrade)),
{
    match upgrade {
        Some(v) => {
            if !is_text(v.as_slice()) {
                return false;
            }
            let lower = to_lowercase(v.as_slice());
            let pat: Vec<u8> = vec![119u8, 101u8, 98u8, 115u8, 111u8, 99u8, 107u8, 101u8, 116u8];
            assert(pat@ =~= websocket_bytes());
            contains(lower.as_slice(), pat.as_slice())
        },
        None => false,
    }
}

/// Whether the header value reads as text and lists `word` (in lower case)
/// among its comma-separated options.
fn lists_option(v: &Vec<u8>, word: &Vec<u8>) -> (r: bool)
    ensures
        r == value_lists(v@, word@),
{
    if !is_text(v.as_slice()) {
        return false;
    }
    let parts = split_on_commas(v.as_slice());
    let ghost sp = split_commas(v@);
    let mut j: usize = 0;
    while j < parts.len()
        invariant
            j <= parts@.len(),
            parts@.len() == sp.len(),
            sp == split_commas(v@),
            header_is_text(v@),
            forall|k: int| 0 <= k < parts@.len() ==> #[trigger] parts@[k]@ == sp[k],
            forall|k: int| 0 <= k < j ==> !option_is(v@, k, word@),
        decreases parts@.len() - j,
    {
        let trimmed = trim_bytes(parts[j].as_slice());
        let lower = to_lowercase(trimmed.as_slice());
        assert(parts@[j as int]@ == sp[j as int]);
        if bytes_eq(lower.as_slice(), word.as_slice()) {
            assert(option_is(v@, j as int, word@));
            return true;
        }
        j = j + 1;
    }
    false
}

/// Whether a request with these `Connection` header values asks for an
/// upgrade.
pub fn asks_connection_upgrade(values: &Vec<Vec<u8>>) -> (r: bool)
    ensures
        r == connection_upgrade(values_view(values@)),
{
    let close: Vec<u8> = vec![99u8, 108u8, 111u8, 115u8, 101u8];
    let upgrade_word: Vec<u8> = vec![117u8, 112u8, 103u8, 114u8, 97u8, 100u8, 101u8];
    assert(close@ =~= close_bytes());
    assert(upgrade_word@ =~= upgrade_bytes());
    let ghost vs = values_view(values@);
    let mut upgrade = false;
    let mut i: usize = 0;
    while i < values.len()
        invariant
            i <= values@.len(),
            vs == values_view(values@),
            vs.len() == values@.len(),
            close@ == close_bytes(),
            upgrade_word@ == upgrade_bytes(),
            forall|k: int| 0 <= k < i ==> !value_lists(#[trigger] vs[k], close_bytes()),
            upgrade == exists|k: int| 0 <= k < i && value_lists(#[trigger] vs[k], upgrade_bytes()),
        decreases values@.len() - i,
    {
        assert(vs[i as int] == values@[i as int]@);
        if lists_option(&values[i], &close) {
            return false;
        }
        if lists_option(&values[i], &upgrade_word) {
            upgrade = true;
        }
        i = i + 1;
    }
    upgrade
}

fn is_supported_version(v: &Vec<u8>) -> (r: bool)
    ensures
        r == supported_version(v@),
{
    let v13: Vec<u8> = vec![49u8, 51u8];
    let v8: Vec<u8> = vec![56u8];
    let v7: Vec<u8> = vec![55u8];
    assert(v13@ =~= seq![49u8, 51u8]);
    assert(v8@ =~= seq![56u8]);
    assert(v7@ =~= seq![55u8]);
    bytes_eq(v.as_slice(), v13.as_slice()) || bytes_eq(v.as_slice(), v8.as_slice()) || bytes_eq(
        v.as_slice(),
        v7.as_slice(),
    )
}

/// Checks a request in the order the handshake does and reports the first
/// problem.
pub fn check_handshake(req: &HandshakeRequest) -> (r: Result<(), HandshakeError>)
    ensures
        r matches Err(e) ==> handshake_error(*req) == Some(e),
        r is Ok <==> handshake_error(*req) is None,
{
    let get: Vec<u8> = vec![71u8, 69u8, 84u8];
    assert(get@ =~= get_bytes());
    if !bytes_eq(req.method.as_slice(), get.as_slice()) {
        return Err(HandshakeError::GetMethodRequired);
    }
    if !has_websocket_upgrade(&req.upgrade) {
        return Err(HandshakeError::NoWebsocketUpgrade);
    }
    if !asks_connection_upgrade(&req.connection) {
        return Err(HandshakeError::NoConnectionUpgrade);
    }
    match &req.version {
        None => {
            return Err(HandshakeError::NoVersionHeader);
        },
        Some(v) => {
            if !is_supported_version(v) {
                return Err(HandshakeError::UnsupportedVersion);
            }
        },
    }
    if req.key.is_none() {
        return Err(HandshakeError::BadWebsocketKey);
    }
    Ok(())
}

fn is_known(part: &Vec<u8>, protocols: &[&str]) -> (r: bool)
    ensures
        r == protocols_view(protocols@).contains(part@),
{
    let mut j: usize = 0;
    while j < protocols.len()
        invariant
            j <= protocols@.len(),
            forall|k: int| 0 <= k < j ==> protocols@[k].spec_bytes() != part@,
        decreases protocols@.len() - j,
    {
        let p: &str = protocols[j];
        if bytes_eq(part.as_slice(), p.as_bytes()) {
            assert(protocols_view(protocols@)[j as int] == part@);
            return true;
        }
        j = j + 1;
    }
    assert forall|k: int| 0 <= k < protocols_view(protocols@).len() implies protocols_view(
        protocols@,
    )[k] != part@ by {
        assert(protocols_view(protocols@)[k] == protocols@[k].spec_bytes());
    }
    false
}

/// The subprotocol to agree to, given the client's `Sec-WebSocket-Protocol`
/// header and the protocols that the server knows.
pub fn select_protocol(header: &Option<Vec<u8>>, protocols: &[&str]) -> (r: Option<Vec<u8>>)
    ensures
        opt_view(r) == selected_protocol(opt_view(*header), protocols_view(protocols@)),
{
    let v = match header {
        Some(v) => v,
        None => {
            return None;
        },
    };
    if !is_text(v.as_slice()) {
        return None;
    }
    let parts = split_on_commas(v.as_slice());
    let ghost sp = split_commas(v@);
    let ghost pv = protocols_view(protocols@);
    let mut i: usize = 0;
    while i < parts.len()
        invariant
            i <= parts@.len(),
            parts@.len() == sp.len(),
            forall|k: int| 0 <= k < parts@.len() ==> #[trigger] parts@[k]@ == sp[k],
            sp == split_commas(v@),
            pv == protocols_view(protocols@),
            header_is_text(v@),
            selected_protocol(opt_view(*header), pv) == first_supported_from(sp, pv, i as int),
            *header == Some(*v),
        decreases parts@.len() - i,
    {
        let trimmed = trim_bytes(parts[i].as_slice());
        assert(parts@[i as int]@ == sp[i as int]);
        if is_known(&trimmed, protocols) {
            return Some(trimmed);
        }
        i = i + 1;
    }
    None
}

/// The response that accepts the upgrade, built from the request, the
/// protocols that the server knows and the accept key computed from the
/// client's key.
pub fn handshake_response(req: &HandshakeRequest, protocols: &[&str], accept: Vec<u8>) -> (r:
    HandshakeResponse)
    ensures
        r.status == switching_protocols(),
        r.upgrade@ == websocket_bytes(),
        r.transfer_encoding@ == chunked_bytes(),
        r.accept@ == accept@,
        opt_view(r.protocol) == selected_protocol(opt_view(req.protocol), protocols_view(protocols@)),
{
    let protocol = select_protocol(&req.protocol, protocols);
    let upgrade: Vec<u8> = vec![119u8, 101u8, 98u8, 115u8, 111u8, 99u8, 107u8, 101u8, 116u8];
    let transfer_encoding: Vec<u8> = vec![99u8, 104u8, 117u8, 110u8, 107u8, 101u8, 100u8];
    assert(upgrade@ =~= websocket_bytes());
    assert(transfer_encoding@ =~= chunked_bytes());
    HandshakeResponse { status: 101, upgrade, transfer_encoding, accept, protocol }
}

/// Prepares the websocket handshake response. Performs no I/O.
///
/// `protocols` is the sequence of protocols that the server knows. On success
/// the response names the first protocol that the client lists and the server
/// knows.
pub fn handshake_with_protocols(req: &HandshakeRequest, protocols: &[&str]) -> (r: Result<
    HandshakeResponse,
    HandshakeError,
>)
    ensures
        r is Ok <==> handshake_error(*req) is None,
        r matches Err(e) ==> handshake_error(*req) == Some(e),
        r matches Ok(resp) ==> {
            &&& resp.status == switching_protocols()
            &&& resp.upgrade@ == websocket_bytes()
            &&& resp.transfer_encoding@ == chunked_bytes()
            &&& resp.accept@ == ws_accept_key(req.key->0@)
            &&& opt_view(resp.protocol) == selected_protocol(
                opt_view(req.protocol),
                protocols_view(protocols@),
            )
        },
{
    match check_handshake(req) {
        Err(e) => Err(e),
        Ok(()) => {
            let accept = match &req.key {
                Some(k) => hash_key(k.as_slice()),
                None => {
                    return Err(HandshakeError::BadWebsocketKey);
                },
            };
            Ok(handshake_response(req, protocols, accept))
        },
    }
}

/// The handshake without subprotocols.
pub fn handshake(req: &HandshakeRequest) -> (r: Result<HandshakeResponse, HandshakeError>)
    ensures
        r is Ok <==> handshake_error(*req) is None,
        r matches Err(e) ==> handshake_error(*req) == Some(e),
        r matches Ok(resp) ==> {
            &&& resp.status == switching_protocols()
            &&& resp.upgrade@ == websocket_bytes()
            &&& resp.transfer_encoding@ == chunked_bytes()
            &&& resp.accept@ == ws_accept_key(req.key->0@)
            &&& resp.protocol is None
        },
{
    let none: [&str; 0] = [];
    let slice = none.as_slice();
    assert(protocols_view(slice@) =~= Seq::<Seq<u8>>::empty());
    let r = handshake_with_protocols(req, slice);
    proof {
        lemma_nothing_selected(opt_view(req.protocol));
    }
    r
}

/// Without server protocols no subprotocol is agreed to.
pub proof fn lemma_nothing_selected(header: Option<Seq<u8>>)
    ensures
        selected_protocol(header, Seq::<Seq<u8>>::empty()) is None,
{
    if let Some(v) = header {
        if header_is_text(v) {
            lemma_first_supported_none(split_commas(v), 0);
        }
    }
}

proof fn lemma_first_supported_none(parts: Seq<Seq<u8>>, i: int)
    ensures
        first_supported_from(parts, Seq::<Seq<u8>>::empty(), i) is None,
    decreases parts.len() - i,
{
    if 0 <= i < parts.len() {
        assert(!Seq::<Seq<u8>>::empty().contains(trim(parts[i])));
        lemma_first_supported_none(parts, i + 1);
    }
}

proof fn lemma_first_supported_is_known(parts: Seq<Seq<u8>>, protocols: Seq<Seq<u8>>, i: int)
    ensures
        first_supported_from(parts, protocols, i) matches Some(p) ==> protocols.contains(p)
            && exists|k: int| i <= k < parts.len() && #[trigger] trim(parts[k]) == p,
    decreases parts.len() - i,
{
    if 0 <= i < parts.len() && !protocols.contains(trim(parts[i])) {
        lemma_first_supported_is_known(parts, protocols, i + 1);
    }
}

/// The agreed subprotocol is one that the server knows and that the client
/// listed (after trimming).
pub proof fn law_selected_protocol_is_known(header: Seq<u8>, protocols: Seq<Seq<u8>>)
    ensures
        selected_protocol(Some(header), protocols) matches Some(p) ==> protocols.contains(p)
            && exists|k: int|
            0 <= k < split_commas(header).len() && #[trigger] trim(split_commas(header)[k]) == p,
{
    lemma_first_supported_is_known(split_commas(header), protocols, 0);
}

} // verus!
