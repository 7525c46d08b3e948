//! The decisions of the QUIC file server: the address-validation tokens of
//! stateless retry, the bookkeeping of partly sent responses, and the
//! recognition of requests.

use vstd::prelude::*;

verus! {

/// The tag that starts every token: the bytes of `quiche`.
pub open spec fn token_tag() -> Seq<u8> {
    seq![113u8, 117u8, 105u8, 99u8, 104u8, 101u8]
}

/// The token minted for a client: the tag, the octets of the client's IP
/// address, then the destination connection id that the client chose.
pub open spec fn token_spec(dcid: Seq<u8>, addr: Seq<u8>) -> Seq<u8> {
    token_tag() + addr + dcid
}

/// What `validate_token` gives: the original destination connection id
/// carried by a token, when the token starts with the tag and then the
/// octets of the client's address; nothing otherwise.
pub open spec fn validate_token_spec(addr: Seq<u8>, token: Seq<u8>) -> Option<Seq<u8>> {
    if token.len() >= 6 && token.subrange(0, 6) == token_tag() && token.len() - 6 >= addr.len()
        && token.subrange(6, 6int + addr.len()) == addr {
        Some(token.subrange(6int + addr.len(), token.len() as int))
    } else {
        None
    }
}

fn push_all(out: &mut Vec<u8>, bytes: &[u8])
    ensures
        final(out)@ == old(out)@ + bytes@,
{
    let mut i: usize = 0;
    while i < bytes.len()
        invariant
            i <= bytes@.len(),
            out@ == old(out)@ + bytes@.subrange(0, i as int),
        decreases bytes@.len() - i,
    {
        out.push(bytes[i]);
        i = i + 1;
        assert(out@ =~= old(out)@ + bytes@.subrange(0, i as int));
    }
    assert(bytes@.subrange(0, i as int) =~= bytes@);
}

/// Mints the token of a stateless retry for a client at the address whose
/// octets are `addr`, whose first packet named `dcid` as its destination.
pub fn mint_token(dcid: &[u8], addr: &[u8]) -> (token: Vec<u8>)
    ensures
        token@ == token_spec(dcid@, addr@),
{
    let mut token: Vec<u8> = Vec::new();
    token.push(113u8);
    token.push(117u8);
    token.push(105u8);
    token.push(99u8);
    token.push(104u8);
    token.push(101u8);
    assert(token@ =~= token_tag());
    push_all(&mut token, addr);
    push_all(&mut token, dcid);
    token
}

fn same_bytes(a: &[u8], start: usize, b: &[u8]) -> (r: bool)
    requires
        start + b@.len() <= a@.len(),
    ensures
        r == (a@.subrange(start as int, start + b@.len()) == b@),
{
    let mut i: usize = 0;
    while i < b.len()
        invariant
            start + b@.len() <= a@.len(),
            a@.len() == a.len(),
            i <= b@.len(),
            forall|j: int| 0 <= j < i ==> a@[start + j] == b@[j],
        decreases b@.len() - i,
    {
        if a[start + i] != b[i] {
            assert(a@.subrange(start as int, start + b@.len())[i as int] != b@[i as int]);
            return false;
        }
        i = i + 1;
    }
    assert(a@.subrange(start as int, start + b@.len()) =~= b@);
    true
}

/// Checks the token that a client sent back from the address whose octets
/// are `addr`, and gives the original destination connection id that it
/// carries, or nothing when the token was not minted for that address.
pub fn validate_token(addr: &[u8], token: &[u8]) -> (r: Option<Vec<u8>>)
    ensures
        match r {
            Some(v) => validate_token_spec(addr@, token@) == Some(v@),
            None => validate_token_spec(addr@, token@) is None,
        },
{
    if token.len() < 6 {
        return None;
    }
    let tag: [u8; 6] = [113u8, 117u8, 105u8, 99u8, 104u8, 101u8];
    assert(tag@ =~= token_tag());
    if !same_bytes(token, 0, tag.as_slice()) {
        return None;
    }
    let rest: usize = token.len() - 6;
    if rest < addr.len() || !same_bytes(token, 6, addr) {
        return None;
    }
    let mut odcid: Vec<u8> = Vec::new();
    let mut i: usize = 6 + addr.len();
    while i < token.len()
        invariant
            6int + addr@.len() <= i <= token@.len(),
            odcid@ == token@.subrange(6int + addr@.len(), i as int),
        decreases token@.len() - i,
    {
        odcid.push(token[i]);
        i = i + 1;
        assert(odcid@ =~= token@.subrange(6int + addr@.len(), i as int));
    }
    Some(odcid)
}

/// Law: a token minted for a client validates, from the same address, to
/// the connection id it was minted with; from another address of the same
/// family it does not validate.
pub proof fn lemma_token_round_trip(dcid: Seq<u8>, addr: Seq<u8>, other: Seq<u8>)
    requires
        other.len() == addr.len(),
        other != addr,
    ensures
        validate_token_spec(addr, token_spec(dcid, addr)) == Some(dcid),
        validate_token_spec(other, token_spec(dcid, addr)) is None,
{
    lemma_token_round_trip_same(dcid, addr);
    let t = token_spec(dcid, addr);
    assert(t.subrange(6, 6int + addr.len()) =~= addr);
}

/// Law: a token validates only when it is exactly the bytes `quiche`, then
/// the octets of the client's address, then the connection id it gives
/// back; a token that starts otherwise never validates.
pub proof fn lemma_valid_token_shape(addr: Seq<u8>, token: Seq<u8>)
    ensures
        validate_token_spec(addr, token) matches Some(odcid) ==> token == seq![
            113u8,
            117u8,
            105u8,
            99u8,
            104u8,
            101u8,
        ] + addr + odcid,
        token.len() < 6 || token.subrange(0, 6) != seq![113u8, 117u8, 105u8, 99u8, 104u8, 101u8]
            ==> validate_token_spec(addr, token) is None,
{
    if let Some(odcid) = validate_token_spec(addr, token) {
        assert(token =~= token.subrange(0, 6) + token.subrange(6, 6int + addr.len())
            + token.subrange(6int + addr.len(), token.len() as int));
    }
}

/// Law: a packet from a new client in a supported version that carries a
/// token is accepted only when the token is `quiche`, the client's address
/// and the original destination id that the acceptance gives.
pub proof fn lemma_accept_needs_minted_token(
    is_initial: bool,
    version_supported: bool,
    dcid: Seq<u8>,
    token: Seq<u8>,
    addr: Seq<u8>,
    conn_id_len: nat,
    d: PacketDecision,
)
    requires
        packet_decision_spec(false, is_initial, version_supported, dcid, token, addr, conn_id_len, d),
    ensures
        d matches PacketDecision::Accept(o) ==> token == seq![
            113u8,
            117u8,
            105u8,
            99u8,
            104u8,
            101u8,
        ] + addr + o@,
{
    lemma_valid_token_shape(addr, token);
}

/// What the server does with a packet from a client it does not know yet,
/// or with one from a client it knows.
#[derive(Debug)]
pub enum PacketDecision {
    /// The packet belongs to a known connection.
    Known,
    /// A new client sent something other than an Initial packet: drop it.
    NotInitial,
    /// The client speaks a version the server does not: negotiate.
    NegotiateVersion,
    /// The client sent no token: send a retry carrying this token.
    Retry(Vec<u8>),
    /// The client's token was not minted for its address: drop the packet.
    InvalidToken,
    /// The client's destination id has not the length of the server's ids:
    /// drop the packet.
    InvalidConnectionId,
    /// Accept the connection, whose original destination id was this.
    Accept(Vec<u8>),
}

/// What the server does with a packet: known connections go on; a new
/// client must send an Initial packet in a supported version, is sent a
/// retry with a token when it sent none, and is accepted when its token was
/// minted for its address and its destination id has the server's length.
pub open spec fn packet_decision_spec(
    known: bool,
    is_initial: bool,
    version_supported: bool,
    dcid: Seq<u8>,
    token: Seq<u8>,
    addr: Seq<u8>,
    conn_id_len: nat,
    d: PacketDecision,
) -> bool {
    if known {
        d is Known
    } else if !is_initial {
        d is NotInitial
    } else if !version_supported {
        d is NegotiateVersion
    } else if token.len() == 0 {
        d matches PacketDecision::Retry(t) && t@ == token_spec(dcid, addr)
    } else if validate_token_spec(addr, token) is None {
        d is InvalidToken
    } else if conn_id_len != dcid.len() {
        d is InvalidConnectionId
    } else {
        d matches PacketDecision::Accept(o) && validate_token_spec(addr, token) == Some(o@)
    }
}

/// Decides what to do with a packet whose destination id is `dcid`, sent
/// with `token` from the address whose octets are `addr`, to a server whose
/// connection ids have `conn_id_len` bytes.
pub fn decide_packet(
    known: bool,
    is_initial: bool,
    version_supported: bool,
    dcid: &[u8],
    token: &[u8],
    addr: &[u8],
    conn_id_len: usize,
) -> (d: PacketDecision)
    ensures
        packet_decision_spec(
            known,
            is_initial,
            version_supported,
            dcid@,
            token@,
            addr@,
            conn_id_len as nat,
            d,
        ),
{
    if known {
        return PacketDecision::Known;
    }
    if !is_initial {
        return PacketDecision::NotInitial;
    }
    if !version_supported {
        return PacketDecision::NegotiateVersion;
    }
    if token.len() == 0 {
        return PacketDecision::Retry(mint_token(dcid, addr));
    }
    match validate_token(addr, token) {
        None => PacketDecision::InvalidToken,
        Some(odcid) => {
            if conn_id_len != dcid.len() {
                PacketDecision::InvalidConnectionId
            } else {
                PacketDecision::Accept(odcid)
            }
        },
    }
}

/// Law: a client that answers the retry with the token it was sent, from
/// the same address, with a destination id of the server's length, is
/// accepted, and the connection's original destination id is the one it
/// first chose.
pub proof fn lemma_retry_then_accept(
    first_dcid: Seq<u8>,
    addr: Seq<u8>,
    dcid: Seq<u8>,
    d: PacketDecision,
)
    requires
        packet_decision_spec(
            false,
            true,
            true,
            dcid,
            token_spec(first_dcid, addr),
            addr,
            dcid.len(),
            d,
        ),
    ensures
        d matches PacketDecision::Accept(o) && o@ == first_dcid,
{
    lemma_token_round_trip_same(first_dcid, addr);
    assert(token_spec(first_dcid, addr).len() >= 6);
}

/// A token validates, from the address it was minted for, to its id.
proof fn lemma_token_round_trip_same(dcid: Seq<u8>, addr: Seq<u8>)
    ensures
        validate_token_spec(addr, token_spec(dcid, addr)) == Some(dcid),
{
    let t = token_spec(dcid, addr);
    assert(t.subrange(0, 6) =~= token_tag());
    assert(t.subrange(6, 6int + addr.len()) =~= addr);
    assert(t.subrange(6int + addr.len(), t.len() as int) =~= dcid);
}

/// What sending on a stream gave: bytes taken, nothing taken because the
/// stream cannot take more now, or a failure.
#[derive(Debug, Clone, Copy, PartialEq, Eq, Structural)]
pub enum SendResult {
    Sent(usize),
    Done,
    Failed,
}

/// A response of which only the first `written` bytes were sent.
#[derive(Debug)]
pub struct PartialResponse {
    pub body: Vec<u8>,
    pub written: usize,
}

impl PartialResponse {
    /// Whether the count of sent bytes lies within the body.
    pub open spec fn wf(&self) -> bool {
        self.written <= self.body@.len()
    }

    /// The bytes still to send.
    pub fn unsent(&self) -> (r: &[u8])
        requires
            self.wf(),
        ensures
            r@ == self.body@.subrange(self.written as int, self.body@.len() as int),
    {
        vstd::slice::slice_subrange(self.body.as_slice(), self.written, self.body.len())
    }

    /// Records what sending the unsent bytes gave, and says whether the
    /// response is finished with: wholly sent, or failed.
    pub fn record_send(&mut self, result: SendResult) -> (finished: bool)
        requires
            old(self).wf(),
            result matches SendResult::Sent(n) ==> n <= old(self).body@.len() - old(self).written,
        ensures
            final(self).wf(),
            final(self).body == old(self).body,
            final(self).written == match result {
                SendResult::Sent(n) => old(self).written + n,
                _ => old(self).written as int,
            },
            finished == (result == SendResult::Failed || final(self).written
                == final(self).body@.len()),
    {
        let n: usize = match result {
            SendResult::Sent(n) => n,
            SendResult::Done => 0,
            SendResult::Failed => {
                return true;
            },
        };
        assert(self.body@.len() == self.body.len());
        self.written = self.written + n;
        self.written == self.body.len()
    }
}

/// What the server takes as the target of a request: the bytes after a
/// `GET` and a separator. The check compares the first four bytes with the
/// three bytes of `GET`, so no request is ever taken.
pub open spec fn request_target_spec(buf: Seq<u8>) -> Option<Seq<u8>> {
    let get = seq![71u8, 69u8, 84u8];
    if buf.len() > 4 && buf.subrange(0, 4) == get {
        Some(buf.subrange(4, buf.len() as int))
    } else {
        None
    }
}

/// The target of a `GET` request on a stream, if the request is one.
pub fn request_target(buf: &[u8]) -> (r: Option<Vec<u8>>)
    ensures
        r is None,
        request_target_spec(buf@) is None,
{
    let get: [u8; 3] = [71u8, 69u8, 84u8];
    let prefix_len: usize = 4;
    if buf.len() > 4 && prefix_len == get.len() {
        let mut target: Vec<u8> = Vec::new();
        push_all(&mut target, vstd::slice::slice_subrange(buf, 4, buf.len()));
        return Some(target);
    }
    proof {
        if buf@.len() > 4 {
            assert(buf@.subrange(0, 4).len() != seq![71u8, 69u8, 84u8].len());
        }
    }
    None
}


/// The length of the connection ids that the server hands out.
pub const MAX_CONN_ID_LEN: usize = 20;

/// The HMAC-SHA-256 tag of `data` under the key made of the bytes `seed`.
pub uninterp spec fn hmac_sha256_of(seed: Seq<u8>, data: Seq<u8>) -> Seq<u8>;

/// The HMAC-SHA-256 tag of `data` under the key made of the bytes `seed`.
///
/// Calls `ring::hmac::Key::new` with `HMAC_SHA256` on the seed and then
/// `ring::hmac::sign`, and copies the tag's bytes. HMAC is a function of the
/// key and the data alone, so the contract names the tag `hmac_sha256_of`
/// the two; it also claims the tag's length, the 32 bytes of a SHA-256
/// digest. `ring` panics when a hashed input, the 64-byte key block and
/// what follows it, passes 2^61 - 1 bytes; the requirements keep the seed
/// and the data under that.
#[verifier::external_body]
fn hmac_sha256(seed: &[u8], data: &[u8]) -> (tag: Vec<u8>)
    requires
        seed@.len() <= 0x1fff_ffff_ffff_ffbf,
        data@.len() <= 0x1fff_ffff_ffff_ffbf,
    ensures
        tag@ == hmac_sha256_of(seed@, data@),
        tag@.len() == 32,
{
    let key = ring::hmac::Key::new(ring::hmac::HMAC_SHA256, seed);
    ring::hmac::sign(&key, data).as_ref().to_vec()
}

/// The connection id cut from an HMAC tag: its first `MAX_CONN_ID_LEN`
/// bytes, or nothing when the tag is shorter.
pub fn conn_id_from_tag(tag: &[u8]) -> (r: Option<Vec<u8>>)
    ensures
        r is Some <==> tag@.len() >= MAX_CONN_ID_LEN,
        r matches Some(id) ==> id@ == tag@.subrange(0, MAX_CONN_ID_LEN as int),
{
    if tag.len() < MAX_CONN_ID_LEN {
        return None;
    }
    let mut id: Vec<u8> = Vec::new();
    let mut i: usize = 0;
    while i < MAX_CONN_ID_LEN
        invariant
            i <= MAX_CONN_ID_LEN <= tag@.len(),
            id@ == tag@.subrange(0, i as int),
        decreases MAX_CONN_ID_LEN - i,
    {
        id.push(tag[i]);
        i = i + 1;
        assert(id@ =~= tag@.subrange(0, i as int));
    }
    Some(id)
}

/// The server's own id for the connection of a packet: the HMAC-SHA-256
/// of the packet's destination connection id under the server's secret
/// seed, cut to `MAX_CONN_ID_LEN` bytes.
pub fn connection_id(seed: &[u8], dcid: &[u8]) -> (r: Vec<u8>)
    requires
        seed@.len() <= 0x1fff_ffff_ffff_ffbf,
        dcid@.len() <= 0x1fff_ffff_ffff_ffbf,
    ensures
        r@ == hmac_sha256_of(seed@, dcid@).subrange(0, MAX_CONN_ID_LEN as int),
{
    let tag = hmac_sha256(seed, dcid);
    let id = conn_id_from_tag(tag.as_slice());
    id.unwrap()
}

} // verus!
