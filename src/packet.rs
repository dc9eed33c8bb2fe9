use vstd::prelude::*;

use crate::error::{MotdError, MotdErrorCode};
use crate::status::{parse_server_id_string, parse_status_spec, ServerIdStringParsed, StatusView};

verus! {

/// RakNet's offline-message magic, carried by every unconnected ping and pong.
pub const MAGIC: [u8; 16] = [
    0x00, 0xff, 0xff, 0x00, 0xfe, 0xfe, 0xfe, 0xfe, 0xfd, 0xfd, 0xfd, 0xfd, 0x12, 0x34, 0x56, 0x78,
];

/// Length of an unconnected ping.
pub const PING_LEN: usize = 33;

/// Length of the fixed part of an unconnected pong, up to and including the
/// length of the server id string.
pub const PONG_HEADER_LEN: usize = 35;

pub open spec fn magic_bytes() -> Seq<u8> {
    seq![
        0x00u8, 0xff, 0xff, 0x00, 0xfe, 0xfe, 0xfe, 0xfe, 0xfd, 0xfd, 0xfd, 0xfd, 0x12, 0x34, 0x56,
        0x78,
    ]
}

pub open spec fn zeros(n: nat) -> Seq<u8> {
    Seq::new(n, |i: int| 0u8)
}

/// An unconnected ping: packet id 0x01, a zero timestamp, the magic and a zero
/// client guid.
pub open spec fn ping_bytes() -> Seq<u8> {
    seq![0x01u8] + zeros(8) + magic_bytes() + zeros(8)
}

/// Builds the unconnected ping that asks a server for its pong.
pub fn unconnected_ping() -> (r: Vec<u8>)
    ensures
        r@ == ping_bytes(),
{
    let mut r: Vec<u8> = Vec::new();
    r.push(0x01);
    let mut i: usize = 0;
    while i < 8
        invariant
            i <= 8,
            r@ == seq![0x01u8] + zeros(i as nat),
        decreases 8 - i,
    {
        r.push(0);
        i = i + 1;
        assert(r@ =~= seq![0x01u8] + zeros(i as nat));
    }
    let mut j: usize = 0;
    while j < 16
        invariant
            j <= 16,
            MAGIC@ == magic_bytes(),
            r@ == seq![0x01u8] + zeros(8) + magic_bytes().subrange(0, j as int),
        decreases 16 - j,
    {
        r.push(MAGIC[j]);
        j = j + 1;
        assert(r@ =~= seq![0x01u8] + zeros(8) + magic_bytes().subrange(0, j as int));
    }
    let mut k: usize = 0;
    while k < 8
        invariant
            k <= 8,
            r@ == seq![0x01u8] + zeros(8) + magic_bytes() + zeros(k as nat),
        decreases 8 - k,
    {
        r.push(0);
        k = k + 1;
        assert(r@ =~= seq![0x01u8] + zeros(8) + magic_bytes() + zeros(k as nat));
    }
    r
}

/// The unsigned big-endian value of the two bytes at `off`.
pub open spec fn be_u16_at(b: Seq<u8>, off: int) -> int {
    b[off] as int * 0x100 + b[off + 1] as int
}

/// The unsigned big-endian value of the eight bytes at `off`.
pub open spec fn be_u64_at(b: Seq<u8>, off: int) -> int {
    b[off] as int * 0x100000000000000 + b[off + 1] as int * 0x1000000000000 + b[off + 2] as int
        * 0x10000000000 + b[off + 3] as int * 0x100000000 + b[off + 4] as int * 0x1000000 + b[off
        + 5] as int * 0x10000 + b[off + 6] as int * 0x100 + b[off + 7] as int
}

/// The two's complement reading of a 16-bit pattern.
pub open spec fn signed16(u: int) -> int {
    if u < 0x8000 {
        u
    } else {
        u - 0x10000
    }
}

/// The two's complement reading of a 64-bit pattern.
pub open spec fn signed64(u: int) -> int {
    if u < 0x8000000000000000 {
        u
    } else {
        u - 0x10000000000000000
    }
}

/// The length that the reply declares for its server id string.
pub open spec fn declared_len(b: Seq<u8>) -> int {
    signed16(be_u16_at(b, 33))
}

/// The reply holds the fixed header and as many bytes as it declares for the
/// server id string (bytes after those are ignored).
pub open spec fn reply_fits(b: Seq<u8>) -> bool {
    b.len() >= PONG_HEADER_LEN && 0 <= declared_len(b) && PONG_HEADER_LEN + declared_len(b)
        <= b.len()
}

/// The bytes of the server id string.
pub open spec fn status_bytes(b: Seq<u8>) -> Seq<u8> {
    b.subrange(PONG_HEADER_LEN as int, PONG_HEADER_LEN + declared_len(b))
}

/// What `String::from_utf8_lossy` makes of a byte sequence.
pub uninterp spec fn utf8_lossy(b: Seq<u8>) -> Seq<char>;

/// Relies on `String::from_utf8_lossy`: it decodes the bytes as UTF-8, replacing
/// invalid sequences, and never fails; the text depends on the bytes alone.
#[verifier::external_body]
fn decode_lossy(b: &[u8]) -> (r: String)
    ensures
        r@ == utf8_lossy(b@),
{
    String::from_utf8_lossy(b).into_owned()
}

/// Parsed RakNet unconnected pong packet.
/// Unlike `ServerIdStringParsed` alone, it tells whether the server id string
/// was complete or had defaults filled in.
#[derive(Debug)]
pub struct UnconnectedPong {
    /// Packet id (0x1c).
    pub id: u8,
    /// Time since server start in ms.
    pub time_since_start: i64,
    /// Server guid.
    pub server_guid: i64,
    /// The offline-message magic.
    pub magic: [u8; 16],
    /// Length of server id string.
    pub server_id_string_len: i16,
    /// Raw server id string.
    pub server_id_string_raw: String,
    /// Whether server id string was parsed correctly.
    pub server_id_string_parsed_ok: bool,
    /// Parsed server id string.
    pub server_id_string_parsed: ServerIdStringParsed,
}

/// The fields of an `UnconnectedPong` as mathematical values.
pub struct PongView {
    pub id: u8,
    pub time_since_start: i64,
    pub server_guid: i64,
    pub magic: Seq<u8>,
    pub server_id_string_len: i16,
    pub server_id_string_raw: Seq<char>,
    pub server_id_string_parsed_ok: bool,
    pub server_id_string_parsed: StatusView,
}

impl View for UnconnectedPong {
    type V = PongView;

    open spec fn view(&self) -> PongView {
        PongView {
            id: self.id,
            time_since_start: self.time_since_start,
            server_guid: self.server_guid,
            magic: self.magic@,
            server_id_string_len: self.server_id_string_len,
            server_id_string_raw: self.server_id_string_raw@,
            server_id_string_parsed_ok: self.server_id_string_parsed_ok,
            server_id_string_parsed: self.server_id_string_parsed@,
        }
    }
}

/// What decoding the reply `b` gives. The magic is not compared with the
/// reply's bytes: the known constant is reported.
pub open spec fn decode_spec(b: Seq<u8>) -> Result<PongView, MotdErrorCode> {
    if !reply_fits(b) {
        Err(MotdErrorCode::Truncated)
    } else {
        let raw = utf8_lossy(status_bytes(b));
        match parse_status_spec(raw) {
            Err(code) => Err(code),
            Ok((status, complete)) => Ok(
                PongView {
                    id: b[0],
                    time_since_start: signed64(be_u64_at(b, 1)) as i64,
                    server_guid: signed64(be_u64_at(b, 9)) as i64,
                    magic: magic_bytes(),
                    server_id_string_len: declared_len(b) as i16,
                    server_id_string_raw: raw,
                    server_id_string_parsed_ok: complete,
                    server_id_string_parsed: status,
                },
            ),
        }
    }
}

fn read_u16_be(b: &[u8], off: usize) -> (r: u16)
    requires
        off + 2 <= b@.len(),
    ensures
        r as int == be_u16_at(b@, off as int),
{
    (b[off] as u16) * 0x100 + (b[off + 1] as u16)
}

fn read_u64_be(b: &[u8], off: usize) -> (r: u64)
    requires
        off + 8 <= b@.len(),
    ensures
        r as int == be_u64_at(b@, off as int),
{
    (b[off] as u64) * 0x100000000000000 + (b[off + 1] as u64) * 0x1000000000000 + (b[off + 2] as u64)
        * 0x10000000000 + (b[off + 3] as u64) * 0x100000000 + (b[off + 4] as u64) * 0x1000000 + (b[off
        + 5] as u64) * 0x10000 + (b[off + 6] as u64) * 0x100 + (b[off + 7] as u64)
}

fn to_i16(u: u16) -> (r: i16)
    ensures
        r as int == signed16(u as int),
{
    if u < 0x8000 {
        u as i16
    } else {
        ((u - 0x8000) as i16) + i16::MIN
    }
}

fn to_i64(u: u64) -> (r: i64)
    ensures
        r as int == signed64(u as int),
{
    if u < 0x8000000000000000 {
        u as i64
    } else {
        ((u - 0x8000000000000000) as i64) + i64::MIN
    }
}

/// Decodes an unconnected pong: packet id, time since start, server guid and
/// the length-prefixed server id string, which is then parsed.
///
/// Fails with `Truncated` where the reply is shorter than the fixed header or
/// than the string length it declares (a negative length included), and with the
/// server id string's own error where that does not parse.
pub fn decode_unconnected_pong(reply: &[u8]) -> (r: Result<UnconnectedPong, MotdError>)
    ensures
        match decode_spec(reply@) {
            Ok(v) => r is Ok && r->Ok_0@ == v,
            Err(code) => r is Err && r->Err_0.code == code,
        },
{
    if reply.len() < PONG_HEADER_LEN {
        return Err(MotdError::new(MotdErrorCode::Truncated));
    }
    let id = reply[0];
    let time_since_start = to_i64(read_u64_be(reply, 1));
    let server_guid = to_i64(read_u64_be(reply, 9));
    let server_id_string_len = to_i16(read_u16_be(reply, 33));
    if server_id_string_len < 0 || reply.len() - PONG_HEADER_LEN < server_id_string_len as usize {
        return Err(MotdError::new(MotdErrorCode::Truncated));
    }
    let end = PONG_HEADER_LEN + server_id_string_len as usize;
    let mut bytes: Vec<u8> = Vec::new();
    let mut i: usize = PONG_HEADER_LEN;
    while i < end
        invariant
            PONG_HEADER_LEN <= i <= end,
            end <= reply@.len(),
            bytes@ == reply@.subrange(PONG_HEADER_LEN as int, i as int),
        decreases end - i,
    {
        bytes.push(reply[i]);
        i = i + 1;
        assert(bytes@ =~= reply@.subrange(PONG_HEADER_LEN as int, i as int));
    }
    let raw = decode_lossy(bytes.as_slice());
    match parse_server_id_string(raw.as_str()) {
        Err(e) => Err(e),
        Ok((parsed, complete)) => Ok(
            UnconnectedPong {
                id,
                time_since_start,
                server_guid,
                magic: MAGIC,
                server_id_string_len,
                server_id_string_raw: raw,
                server_id_string_parsed_ok: complete,
                server_id_string_parsed: parsed,
            },
        ),
    }
}

/// Decodes an unconnected pong and keeps its parsed server id string alone.
pub fn fetch_server_id_string(reply: &[u8]) -> (r: Result<ServerIdStringParsed, MotdError>)
    ensures
        match decode_spec(reply@) {
            Ok(v) => r is Ok && r->Ok_0@ == v.server_id_string_parsed,
            Err(code) => r is Err && r->Err_0.code == code,
        },
{
    match decode_unconnected_pong(reply) {
        Ok(pong) => Ok(pong.server_id_string_parsed),
        Err(e) => Err(e),
    }
}

/// A reply shorter than the fixed header, that is shorter than a pong with an
/// empty server id string, always decodes to `Truncated`.
pub proof fn lemma_short_reply_is_truncated(b: Seq<u8>)
    requires
        b.len() < PONG_HEADER_LEN,
    ensures
        decode_spec(b) == Err::<PongView, MotdErrorCode>(MotdErrorCode::Truncated),
{
}

} // verus!
