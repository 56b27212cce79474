//! The RCON packet codec.
//!
//! A packet crosses the wire as, all integers little-endian 32-bit signed:
//!
//! ```text
//! [size:4][id:4][type:4][body bytes (UTF-8, no NUL)][0x00][0x00]
//! ```
//!
//! `size` counts every byte after the size field itself: the id and type
//! fields (8 bytes), the body, and the two mandatory zero terminator bytes.
//! [`spec_frame`] is the mathematical form of that layout, [`spec_decode`]
//! of its parse; [`Packet::serialize`] and [`Packet::deserialize`] are
//! proved against them, and [`lemma_frame_round_trip`] shows that the parse
//! inverts the layout.

use vstd::bytes::{
    lemma_auto_spec_u32_to_from_le_bytes, spec_u32_from_le_bytes, spec_u32_to_le_bytes,
    u32_from_le_bytes, u32_to_le_bytes,
};
use vstd::prelude::*;
use vstd::slice::{slice_index_get, slice_subrange, slice_to_vec};
use vstd::utf8::{
    decode_utf8, encode_utf8, encode_utf8_decode_utf8, encode_utf8_valid_utf8, valid_utf8,
};

use crate::error::Error;

verus! {

/// Bytes of the id and type fields, the part of a packet's declared size that
/// is not body or padding.
pub const PACKET_HEADER_SIZE: usize = 8;

/// The two zero bytes that close every packet.
pub const PACKET_PADDING_SIZE: usize = 2;

/// The smallest legal declared size: an empty body.
pub const MIN_PACKET_SIZE: usize = PACKET_HEADER_SIZE + PACKET_PADDING_SIZE;

/// The largest legal declared size of a packet (server to client).
pub const MAX_PACKET_SIZE: usize = 4096;

/// The largest body that fits a legal packet.
pub const MAX_PAYLOAD_SIZE: usize = MAX_PACKET_SIZE - MIN_PACKET_SIZE;

/// The stricter cap on an outbound command body (client to server).
pub const MAX_CMD_SIZE: usize = 1446;

/// The role of a packet sent by the client.
#[derive(Copy, Clone, Debug, PartialEq, Eq, Structural)]
pub enum RconReq {
    /// Run a console command (wire code 2).
    ExecCommand,
    /// Authenticate with a password (wire code 3).
    Auth,
    /// Any other wire code, preserved as it stands.
    Unknown(i32),
}

/// The role of a packet received from the server.
#[derive(Copy, Clone, Debug, PartialEq, Eq, Structural)]
pub enum RconResp {
    /// Command output, possibly one fragment of many (wire code 0).
    ResponseValue,
    /// The outcome of an authentication request (wire code 2, shared with
    /// [`RconReq::ExecCommand`]; only responses are ever decoded with this tag).
    AuthResponse,
    /// Any other wire code, preserved as it stands.
    Unknown(i32),
}

/// A packet's semantic tag: its wire code together with its direction.
#[derive(Copy, Clone, Debug, PartialEq, Eq, Structural)]
pub enum MsgType {
    Request(RconReq),
    Response(RconResp),
}

/// The request variant a wire code decodes to.
pub open spec fn req_of_code(code: i32) -> RconReq {
    if code == 2 {
        RconReq::ExecCommand
    } else if code == 3 {
        RconReq::Auth
    } else {
        RconReq::Unknown(code)
    }
}

/// The wire code of a request variant.
pub open spec fn req_code(req: RconReq) -> i32 {
    match req {
        RconReq::ExecCommand => 2,
        RconReq::Auth => 3,
        RconReq::Unknown(code) => code,
    }
}

/// The response variant a wire code decodes to.
pub open spec fn resp_of_code(code: i32) -> RconResp {
    if code == 0 {
        RconResp::ResponseValue
    } else if code == 2 {
        RconResp::AuthResponse
    } else {
        RconResp::Unknown(code)
    }
}

/// The wire code of a response variant.
pub open spec fn resp_code(resp: RconResp) -> i32 {
    match resp {
        RconResp::ResponseValue => 0,
        RconResp::AuthResponse => 2,
        RconResp::Unknown(code) => code,
    }
}

/// The wire code of a tag, whichever direction it has.
pub open spec fn msg_code(t: MsgType) -> i32 {
    match t {
        MsgType::Request(req) => req_code(req),
        MsgType::Response(resp) => resp_code(resp),
    }
}

impl From<i32> for RconReq {
    fn from(value: i32) -> (r: Self) {
        match value {
            2 => RconReq::ExecCommand,
            3 => RconReq::Auth,
            _ => RconReq::Unknown(value),
        }
    }
}

impl vstd::std_specs::convert::FromSpecImpl<i32> for RconReq {
    open spec fn obeys_from_spec() -> bool {
        true
    }

    open spec fn from_spec(v: i32) -> Self {
        req_of_code(v)
    }
}

impl From<RconReq> for i32 {
    fn from(value: RconReq) -> (r: Self) {
        match value {
            RconReq::ExecCommand => 2,
            RconReq::Auth => 3,
            RconReq::Unknown(code) => code,
        }
    }
}

impl vstd::std_specs::convert::FromSpecImpl<RconReq> for i32 {
    open spec fn obeys_from_spec() -> bool {
        true
    }

    open spec fn from_spec(v: RconReq) -> Self {
        req_code(v)
    }
}

impl From<i32> for RconResp {
    fn from(value: i32) -> (r: Self) {
        match value {
            0 => RconResp::ResponseValue,
            2 => RconResp::AuthResponse,
            _ => RconResp::Unknown(value),
        }
    }
}

impl vstd::std_specs::convert::FromSpecImpl<i32> for RconResp {
    open spec fn obeys_from_spec() -> bool {
        true
    }

    open spec fn from_spec(v: i32) -> Self {
        resp_of_code(v)
    }
}

impl From<RconResp> for i32 {
    fn from(value: RconResp) -> (r: Self) {
        match value {
            RconResp::ResponseValue => 0,
            RconResp::AuthResponse => 2,
            RconResp::Unknown(code) => code,
        }
    }
}

impl vstd::std_specs::convert::FromSpecImpl<RconResp> for i32 {
    open spec fn obeys_from_spec() -> bool {
        true
    }

    open spec fn from_spec(v: RconResp) -> Self {
        resp_code(v)
    }
}

impl From<MsgType> for i32 {
    fn from(value: MsgType) -> (r: Self) {
        match value {
            MsgType::Request(req) => i32::from(req),
            MsgType::Response(resp) => i32::from(resp),
        }
    }
}

impl vstd::std_specs::convert::FromSpecImpl<MsgType> for i32 {
    open spec fn obeys_from_spec() -> bool {
        true
    }

    open spec fn from_spec(v: MsgType) -> Self {
        msg_code(v)
    }
}

/// The unsigned 32-bit value with the same bit pattern as `x`, the value that
/// stands in a little-endian wire field holding `x`.
pub open spec fn u32_bits_of_i32(x: i32) -> u32 {
    if x >= 0 {
        x as u32
    } else {
        ((x as int) + 0x1_0000_0000) as u32
    }
}

/// The signed 32-bit value with the same bit pattern as `u`: the inverse of
/// [`u32_bits_of_i32`].
pub open spec fn i32_of_u32_bits(u: u32) -> i32 {
    if u < 0x8000_0000 {
        u as i32
    } else {
        ((u as int) - 0x1_0000_0000) as i32
    }
}

/// Reading a signed field back from its bit pattern gives the value written.
pub proof fn lemma_i32_bits_round_trip(x: i32)
    ensures
        i32_of_u32_bits(u32_bits_of_i32(x)) == x,
{
}

/// Writes `x` as four little-endian bytes, as a signed wire field holds it.
fn i32_le_bytes(x: i32) -> (s: Vec<u8>)
    ensures
        s@ == spec_u32_to_le_bytes(u32_bits_of_i32(x)),
{
    let u: u32 = if x >= 0 {
        x as u32
    } else {
        ((x as i64) + 0x1_0000_0000i64) as u32
    };
    u32_to_le_bytes(u)
}

/// Reads a signed wire field back from its unsigned bit pattern.
fn i32_from_bits(u: u32) -> (x: i32)
    ensures
        x == i32_of_u32_bits(u),
{
    if u < 0x8000_0000 {
        u as i32
    } else {
        ((u as i64) - 0x1_0000_0000i64) as i32
    }
}

/// The exact wire layout of a packet with the given declared size, id, type
/// code and body bytes.
pub open spec fn spec_frame(size: u32, id: i32, code: i32, body: Seq<u8>) -> Seq<u8> {
    spec_u32_to_le_bytes(size) + spec_u32_to_le_bytes(u32_bits_of_i32(id)) + spec_u32_to_le_bytes(
        u32_bits_of_i32(code),
    ) + body + seq![0u8, 0u8]
}

/// What decoding recovers from a frame, short of turning the body bytes into
/// text: the declared size, the two signed fields, and the raw body.
pub ghost struct DecodedFrame {
    pub size: u32,
    pub id: i32,
    pub code: i32,
    pub body: Seq<u8>,
}

/// The parse of one complete frame, with every structural check in the order
/// the wire demands it: the declared size is bounds-checked (as an unsigned
/// count, so a negative wire value is out of bounds, never a wrapped length)
/// before anything else is read; the body must be UTF-8; the two terminator
/// bytes must be zero.
pub open spec fn spec_decode(b: Seq<u8>) -> Result<DecodedFrame, Error> {
    if b.len() < 4 {
        Err(Error::BadResponsePacket)
    } else {
        let size = spec_u32_from_le_bytes(b.subrange(0, 4));
        if size < MIN_PACKET_SIZE as u32 || size > MAX_PACKET_SIZE as u32 {
            Err(Error::InvalidPacketSize(size as usize))
        } else if b.len() != 4 + size {
            Err(Error::BadResponsePacket)
        } else {
            let body = b.subrange(12, b.len() - 2);
            if !valid_utf8(body) {
                Err(Error::InvalidData)
            } else if b[b.len() - 2] != 0 || b[b.len() - 1] != 0 {
                Err(Error::BadResponsePacket)
            } else {
                Ok(
                    DecodedFrame {
                        size,
                        id: i32_of_u32_bits(spec_u32_from_le_bytes(b.subrange(4, 8))),
                        code: i32_of_u32_bits(spec_u32_from_le_bytes(b.subrange(8, 12))),
                        body,
                    },
                )
            }
        }
    }
}

/// One protocol message: the wire unit. `size` is the declared byte length of
/// everything after the size field itself; a packet built by [`Packet::new`]
/// always satisfies [`Packet::wf`], but the fields are plain data and
/// [`Packet::serialize`] re-checks the bounds it needs.
#[derive(Debug)]
pub struct Packet {
    pub size: usize,
    pub id: i32,
    pub ptype: MsgType,
    pub body: String,
}

impl PartialEq for Packet {
    fn eq(&self, other: &Self) -> (r: bool) {
        self.size == other.size && self.id == other.id && self.ptype == other.ptype && self.body
            == other.body
    }
}

impl vstd::std_specs::cmp::PartialEqSpecImpl for Packet {
    open spec fn obeys_eq_spec() -> bool {
        true
    }

    open spec fn eq_spec(&self, other: &Self) -> bool {
        self.size == other.size && self.id == other.id && self.ptype == other.ptype && self.body@
            == other.body@
    }
}

impl Packet {
    /// The structural invariant of every packet that crosses the wire: the
    /// declared size counts the id and type fields, the body bytes and the
    /// two terminator bytes, and lies within the legal bounds.
    pub open spec fn wf(self) -> bool {
        &&& self.size == MIN_PACKET_SIZE + encode_utf8(self.body@).len()
        &&& MIN_PACKET_SIZE <= self.size <= MAX_PACKET_SIZE
    }

    /// Builds a packet around `body`, rejecting a body too long for a legal
    /// packet with [`Error::PayloadTooLong`]; on success the declared size is
    /// exactly what the body demands.
    pub fn new(id: i32, ptype: MsgType, body: String) -> (r: Result<Packet, Error>)
        ensures
            encode_utf8(body@).len() >= MAX_PAYLOAD_SIZE ==> (r matches Err(e) && e
                == Error::PayloadTooLong(encode_utf8(body@).len() as usize)),
            encode_utf8(body@).len() < MAX_PAYLOAD_SIZE ==> (r matches Ok(p) && p.id == id
                && p.ptype == ptype && p.body == body && p.size == MIN_PACKET_SIZE + encode_utf8(
                body@,
            ).len() && p.wf()),
    {
        let body_len = body.as_str().as_bytes().len();
        if body_len >= MAX_PAYLOAD_SIZE {
            return Err(Error::PayloadTooLong(body_len));
        }
        Ok(Packet { size: MIN_PACKET_SIZE + body_len, id, ptype, body })
    }

    /// Encodes the packet into its exact wire bytes, or rejects a declared
    /// size outside the legal bounds with [`Error::InvalidPacketSize`]. The
    /// bytes written are pinned down byte for byte by [`spec_frame`].
    pub fn serialize(&self) -> (r: Result<Vec<u8>, Error>)
        ensures
            self.size < MIN_PACKET_SIZE || self.size > MAX_PACKET_SIZE ==> (r matches Err(e) && e
                == Error::InvalidPacketSize(self.size)),
            MIN_PACKET_SIZE <= self.size <= MAX_PACKET_SIZE ==> (r matches Ok(b) && b@
                == spec_frame(
                self.size as u32,
                self.id,
                msg_code(self.ptype),
                encode_utf8(self.body@),
            )),
    {
        if self.size < MIN_PACKET_SIZE || self.size > MAX_PACKET_SIZE {
            return Err(Error::InvalidPacketSize(self.size));
        }
        let mut buf: Vec<u8> = Vec::new();
        let mut size_bytes = u32_to_le_bytes(self.size as u32);
        buf.append(&mut size_bytes);
        let mut id_bytes = i32_le_bytes(self.id);
        buf.append(&mut id_bytes);
        let code: i32 = i32::from(self.ptype);
        let mut code_bytes = i32_le_bytes(code);
        buf.append(&mut code_bytes);
        let mut body_bytes = slice_to_vec(self.body.as_str().as_bytes());
        buf.append(&mut body_bytes);
        buf.push(0u8);
        buf.push(0u8);
        proof {
            assert(buf@ =~= spec_frame(
                self.size as u32,
                self.id,
                msg_code(self.ptype),
                encode_utf8(self.body@),
            ));
        }
        Ok(buf)
    }

    /// Decodes one complete frame. The result is pinned down by
    /// [`spec_decode`]: every rejection is the one that spec demands, and an
    /// accepted frame yields exactly the declared size, the two signed
    /// fields, and the body text whose encoding is the body bytes. A decoded
    /// packet always carries a response tag, since only bytes arriving from
    /// the server are ever decoded.
    pub fn deserialize(data: &[u8]) -> (r: Result<Packet, Error>)
        ensures
            spec_decode(data@) matches Err(e) ==> (r matches Err(e2) && e2 == e),
            spec_decode(data@) matches Ok(f) ==> (r matches Ok(p) && p.size == f.size as usize
                && p.id == f.id && p.ptype == MsgType::Response(resp_of_code(f.code)) && p.body@
                == decode_utf8(f.body) && p.wf()),
    {
        if data.len() < 4 {
            return Err(Error::BadResponsePacket);
        }
        let size_u = u32_from_le_bytes(slice_subrange(data, 0, 4));
        if size_u < MIN_PACKET_SIZE as u32 || size_u > MAX_PACKET_SIZE as u32 {
            return Err(Error::InvalidPacketSize(size_u as usize));
        }
        let size = size_u as usize;
        if data.len() != 4 + size {
            return Err(Error::BadResponsePacket);
        }
        let id = i32_from_bits(u32_from_le_bytes(slice_subrange(data, 4, 8)));
        let code = i32_from_bits(u32_from_le_bytes(slice_subrange(data, 8, 12)));
        let body_vec = slice_to_vec(slice_subrange(data, 12, 4 + size - 2));
        let body = match string_from_utf8(body_vec) {
            Some(s) => s,
            None => {
                return Err(Error::InvalidData);
            },
        };
        let term_first = *slice_index_get(data, 4 + size - 2);
        let term_second = *slice_index_get(data, 4 + size - 1);
        if term_first != 0 || term_second != 0 {
            return Err(Error::BadResponsePacket);
        }
        proof {
            encode_utf8_decode_utf8(body@);
        }
        Ok(Packet { size, id, ptype: MsgType::Response(RconResp::from(code)), body })
    }

    /// True of a response whose id is the protocol's failure sentinel range:
    /// a negative id on an auth response means the credentials were rejected.
    pub fn is_error(&self) -> (r: bool)
        ensures
            r == (self.id < 0),
    {
        self.id < 0
    }
}

/// From the four leading size bytes of a frame, how many bytes the rest of
/// the frame holds, bounds-checked before anything is read on its account.
/// A caller that reads from a stream takes exactly this many further bytes
/// and hands the whole frame to [`Packet::deserialize`].
pub fn remaining_len(header: &[u8]) -> (r: Result<usize, Error>)
    ensures
        header@.len() != 4 ==> (r matches Err(e) && e == Error::BadResponsePacket),
        header@.len() == 4 ==> {
            let size = spec_u32_from_le_bytes(header@);
            if size < MIN_PACKET_SIZE as u32 || size > MAX_PACKET_SIZE as u32 {
                r matches Err(e) && e == Error::InvalidPacketSize(size as usize)
            } else {
                r matches Ok(n) && n == size as usize
            }
        },
{
    if header.len() != 4 {
        return Err(Error::BadResponsePacket);
    }
    let size_u = u32_from_le_bytes(header);
    if size_u < MIN_PACKET_SIZE as u32 || size_u > MAX_PACKET_SIZE as u32 {
        return Err(Error::InvalidPacketSize(size_u as usize));
    }
    Ok(size_u as usize)
}

/// Relies on `String::from_utf8`: it succeeds exactly on valid UTF-8, and the
/// string it returns holds the given bytes, unchanged, as its encoding.
#[verifier::external_body]
fn string_from_utf8(bytes: Vec<u8>) -> (r: Option<String>)
    ensures
        r is Some <==> valid_utf8(bytes@),
        r matches Some(s) ==> encode_utf8(s@) == bytes@,
{
    String::from_utf8(bytes).ok()
}

/// Law: the parse inverts the layout. Any legal id, type code and body laid
/// out by [`spec_frame`] under the size the body demands is accepted by
/// [`spec_decode`], which recovers that id, that code, and body bytes that
/// decode to the text that was encoded.
pub proof fn lemma_frame_round_trip(id: i32, code: i32, body: Seq<char>)
    requires
        encode_utf8(body).len() < MAX_PAYLOAD_SIZE,
    ensures
        ({
            let size = (MIN_PACKET_SIZE + encode_utf8(body).len()) as u32;
            let bytes = spec_frame(size, id, code, encode_utf8(body));
            spec_decode(bytes) matches Ok(f) && f.size == size && f.id == id && f.code == code
                && f.body == encode_utf8(body) && decode_utf8(f.body) == body
        }),
{
    let body_bytes = encode_utf8(body);
    let size = (MIN_PACKET_SIZE + body_bytes.len()) as u32;
    let bytes = spec_frame(size, id, code, body_bytes);
    lemma_auto_spec_u32_to_from_le_bytes();
    assert(bytes.subrange(0, 4) =~= spec_u32_to_le_bytes(size));
    assert(bytes.subrange(4, 8) =~= spec_u32_to_le_bytes(u32_bits_of_i32(id)));
    assert(bytes.subrange(8, 12) =~= spec_u32_to_le_bytes(u32_bits_of_i32(code)));
    assert(bytes.subrange(12, bytes.len() - 2) =~= body_bytes);
    lemma_i32_bits_round_trip(id);
    lemma_i32_bits_round_trip(code);
    encode_utf8_valid_utf8(body);
    encode_utf8_decode_utf8(body);
    assert(bytes[bytes.len() - 2] == 0 && bytes[bytes.len() - 1] == 0);
}

/// Law: a response tag survives the codec. Its wire code decodes back to the
/// very same variant — except for an [`RconResp::Unknown`] that aliases a
/// known code, which decodes to the known variant instead.
pub proof fn lemma_response_code_round_trip(resp: RconResp)
    requires
        !(resp matches RconResp::Unknown(v) && (v == 0 || v == 2)),
    ensures
        resp_of_code(resp_code(resp)) == resp,
{
}

} // verus!
