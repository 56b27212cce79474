//! The protocol engine that drives a connection: the request-id counter,
//! request framing, the authentication handshake, and the assembly of a
//! multi-packet command response.
//!
//! Nothing here performs I/O. The embedding program owns the TCP stream: it
//! writes the frames these functions build, decodes arriving bytes with
//! [`crate::packet::Packet::deserialize`], and feeds each decoded packet to
//! the state machine that is waiting for it ([`AuthHandshake`] during the
//! handshake, [`ResponseBuilder`] during a command exchange).

use vstd::pervasive::unreached;
use vstd::prelude::*;
use vstd::string::StringExecFns;
use vstd::utf8::encode_utf8;

use crate::error::Error;
use crate::packet::{
    req_code, spec_frame, MsgType, Packet, RconReq, RconResp, MAX_CMD_SIZE, MAX_PAYLOAD_SIZE,
    MIN_PACKET_SIZE,
};

verus! {

/// The request-id counter after one id is consumed: it increments by one and
/// wraps to 1 — never back to 0, and never negative, so a legitimate request
/// id can never collide with the protocol's failure sentinel (-1).
pub open spec fn next_counter(n: int) -> int {
    if n < i32::MAX {
        n + 1
    } else {
        1
    }
}

/// Law: starting from any reachable counter value, the next request id is
/// never negative and, once the counter has moved past 0, never 0 again —
/// ids hand out as 0, 1, 2, … with no gaps, and after `i32::MAX` the counter
/// resumes at 1, so a request id can never be the failure sentinel (-1).
pub proof fn lemma_next_counter_in_range(n: int)
    requires
        0 <= n <= i32::MAX,
    ensures
        1 <= next_counter(n) <= i32::MAX,
{
}

/// The per-connection protocol state: the next request id to assign. The id
/// counter starts at 0 and is shared by every request the connection sends,
/// authentication and commands alike.
pub struct Session {
    pub next_id: i32,
}

impl Session {
    /// Request ids are never negative.
    pub open spec fn wf(self) -> bool {
        self.next_id >= 0
    }

    /// A fresh session, its counter at 0.
    pub fn new() -> (s: Session)
        ensures
            s.wf(),
            s.next_id == 0,
    {
        Session { next_id: 0 }
    }

    /// Consumes and returns the next request id, advancing the counter.
    pub fn fetch_and_add_id(&mut self) -> (id: i32)
        requires
            old(self).wf(),
        ensures
            final(self).wf(),
            id == old(self).next_id,
            id >= 0,
            final(self).next_id as int == next_counter(old(self).next_id as int),
    {
        let id = self.next_id;
        self.next_id = match self.next_id.checked_add(1) {
            Some(n) => n,
            None => 1,
        };
        id
    }

    /// Builds the wire frame for one request packet carrying `body`,
    /// consuming the next request id — also when the body proves too long,
    /// as the id is assigned before the packet is built.
    pub fn make_request(&mut self, request: RconReq, body: String) -> (r: Result<
        (Vec<u8>, i32),
        Error,
    >)
        requires
            old(self).wf(),
        ensures
            final(self).wf(),
            final(self).next_id as int == next_counter(old(self).next_id as int),
            encode_utf8(body@).len() >= MAX_PAYLOAD_SIZE ==> (r matches Err(e) && e
                == Error::PayloadTooLong(encode_utf8(body@).len() as usize)),
            encode_utf8(body@).len() < MAX_PAYLOAD_SIZE ==> (r matches Ok(fr) && fr.1 == old(self).next_id && fr.0@ == spec_frame(
                (MIN_PACKET_SIZE + encode_utf8(body@).len()) as u32,
                fr.1,
                req_code(request),
                encode_utf8(body@),
            )),
    {
        let id = self.fetch_and_add_id();
        let packet = match Packet::new(id, MsgType::Request(request), body) {
            Ok(p) => p,
            Err(e) => {
                return Err(e);
            },
        };
        match packet.serialize() {
            Ok(bytes) => Ok((bytes, id)),
            // A packet fresh from `Packet::new` always has a legal size.
            Err(_) => unreached(),
        }
    }

    /// Prepares one command exchange: the command frame and, right behind it,
    /// the empty sentinel frame whose echoed id will mark the end of the
    /// multi-packet response. A command longer than [`MAX_CMD_SIZE`] bytes is
    /// rejected with [`Error::CmdTooLong`] before any id is consumed.
    pub fn begin_exec(&mut self, cmd: &str) -> (r: Result<ExecRequest, Error>)
        requires
            old(self).wf(),
        ensures
            final(self).wf(),
            encode_utf8(cmd@).len() > MAX_CMD_SIZE ==> (r matches Err(e) && e == Error::CmdTooLong(
                encode_utf8(cmd@).len() as usize,
            ) && *final(self) == *old(self)),
            encode_utf8(cmd@).len() <= MAX_CMD_SIZE ==> (r matches Ok(q) && q.cmd_id == old(self).next_id && q.end_id as int == next_counter(old(self).next_id as int) && final(self).next_id as int == next_counter(next_counter(old(self).next_id as int))
                && q.cmd_frame@ == spec_frame(
                (MIN_PACKET_SIZE + encode_utf8(cmd@).len()) as u32,
                q.cmd_id,
                req_code(RconReq::ExecCommand),
                encode_utf8(cmd@),
            ) && q.end_frame@ == spec_frame(
                MIN_PACKET_SIZE as u32,
                q.end_id,
                req_code(RconReq::ExecCommand),
                Seq::<u8>::empty(),
            )),
    {
        let cmd_len = cmd.as_bytes().len();
        if cmd_len > MAX_CMD_SIZE {
            return Err(Error::CmdTooLong(cmd_len));
        }
        let (cmd_frame, cmd_id) = match self.make_request(RconReq::ExecCommand, cmd.to_owned()) {
            Ok(v) => v,
            // A command within MAX_CMD_SIZE is well within MAX_PAYLOAD_SIZE.
            Err(_) => unreached(),
        };
        proof {
            assert(encode_utf8(Seq::<char>::empty()) =~= Seq::<u8>::empty());
        }
        let (end_frame, end_id) = match self.make_request(RconReq::ExecCommand, String::new()) {
            Ok(v) => v,
            // The sentinel body is empty, so it always fits.
            Err(_) => unreached(),
        };
        Ok(ExecRequest { cmd_frame, end_frame, cmd_id, end_id })
    }
}

/// The two frames of one command exchange: the real command and the empty
/// sentinel sent straight after it. The server answers requests in FIFO
/// order on one connection, so every fragment of the command's response
/// arrives before the sentinel's echo, and a packet whose id is `end_id`
/// marks the end of the response.
pub struct ExecRequest {
    pub cmd_frame: Vec<u8>,
    pub end_frame: Vec<u8>,
    pub cmd_id: i32,
    pub end_id: i32,
}

/// How an authentication handshake was concluded. The protocol calls for two
/// reply packets, an empty [`RconResp::ResponseValue`] matching the request
/// and then the [`RconResp::AuthResponse`]; some servers omit the first.
#[derive(Copy, Clone, Debug, PartialEq, Eq, Structural)]
pub enum HandshakeStatus {
    /// The full two-packet exchange: the verdict was matched to the request.
    Matched,
    /// Only an [`RconResp::AuthResponse`] arrived, not guaranteed to answer
    /// this very request.
    BareAuthResponse,
}

/// Where an [`AuthHandshake`] stands.
#[derive(Copy, Clone, Debug, PartialEq, Eq, Structural)]
pub enum AuthState {
    /// No expected reply seen yet; unrecognized packets are being skipped.
    AwaitingReply,
    /// An empty matching [`RconResp::ResponseValue`] arrived; the very next
    /// packet must be the [`RconResp::AuthResponse`].
    AwaitingAuthResponse,
    /// A verdict was delivered; the handshake takes no further packet.
    Done,
}

/// The authentication handshake as a state machine over decoded packets.
/// Feed it every packet read after the auth request went out, until
/// [`AuthHandshake::step`] delivers a verdict.
pub struct AuthHandshake {
    /// The id the auth request was sent under.
    pub auth_id: i32,
    pub state: AuthState,
}

impl AuthHandshake {
    /// A handshake waiting for the server's answer to request `auth_id`.
    pub fn new(auth_id: i32) -> (h: AuthHandshake)
        ensures
            h.auth_id == auth_id,
            h.state == AuthState::AwaitingReply,
    {
        AuthHandshake { auth_id, state: AuthState::AwaitingReply }
    }

    /// True once a verdict has been delivered.
    pub fn is_done(&self) -> (r: bool)
        ensures
            r == (self.state == AuthState::Done),
    {
        self.state == AuthState::Done
    }

    /// Advances on one decoded packet. `None` asks for the next packet; a
    /// `Some` verdict ends the handshake: authentication succeeded if and
    /// only if the auth response carried a non-negative id. While waiting
    /// for the first expected reply, a packet of any other kind is skipped,
    /// never an error.
    pub fn step(&mut self, p: &Packet) -> (r: Option<Result<HandshakeStatus, Error>>)
        requires
            old(self).state != AuthState::Done,
        ensures
            final(self).auth_id == old(self).auth_id,
            old(self).state == AuthState::AwaitingReply ==> {
                if p.ptype == MsgType::Response(RconResp::ResponseValue) && p.body@.len() == 0
                    && p.id == old(self).auth_id {
                    r is None && final(self).state == AuthState::AwaitingAuthResponse
                } else if p.ptype == MsgType::Response(RconResp::AuthResponse) {
                    final(self).state == AuthState::Done && r == Some(
                        if p.id < 0 {
                            Err::<HandshakeStatus, Error>(Error::AuthFailure)
                        } else {
                            Ok::<HandshakeStatus, Error>(HandshakeStatus::BareAuthResponse)
                        },
                    )
                } else {
                    r is None && final(self).state == AuthState::AwaitingReply
                }
            },
            old(self).state == AuthState::AwaitingAuthResponse ==> final(self).state
                == AuthState::Done && r == Some(
                if p.ptype == MsgType::Response(RconResp::AuthResponse) && p.id >= 0 {
                    Ok::<HandshakeStatus, Error>(HandshakeStatus::Matched)
                } else {
                    Err::<HandshakeStatus, Error>(Error::AuthFailure)
                },
            ),
    {
        match self.state {
            AuthState::AwaitingReply => {
                if p.ptype == MsgType::Response(RconResp::ResponseValue) && p.body.as_str().is_empty()
                    && p.id == self.auth_id {
                    self.state = AuthState::AwaitingAuthResponse;
                    None
                } else if p.ptype == MsgType::Response(RconResp::AuthResponse) {
                    self.state = AuthState::Done;
                    if p.is_error() {
                        Some(Err(Error::AuthFailure))
                    } else {
                        Some(Ok(HandshakeStatus::BareAuthResponse))
                    }
                } else {
                    None
                }
            },
            AuthState::AwaitingAuthResponse => {
                self.state = AuthState::Done;
                if p.ptype == MsgType::Response(RconResp::AuthResponse) && !p.is_error() {
                    Some(Ok(HandshakeStatus::Matched))
                } else {
                    Some(Err(Error::AuthFailure))
                }
            },
            AuthState::Done => None,
        }
    }
}

/// The bodies of a sequence of packets laid end to end, in the order the
/// packets arrived.
pub open spec fn concat_texts(bodies: Seq<Seq<char>>) -> Seq<char>
    decreases bodies.len(),
{
    if bodies.len() == 0 {
        Seq::empty()
    } else {
        concat_texts(bodies.drop_last()) + bodies.last()
    }
}

/// One more body lands at the very end of the concatenation.
pub proof fn lemma_concat_texts_push(bodies: Seq<Seq<char>>, last: Seq<char>)
    ensures
        concat_texts(bodies.push(last)) == concat_texts(bodies) + last,
{
    assert(bodies.push(last).drop_last() =~= bodies);
}

/// Assembles a multi-packet command response. Feed it every packet read
/// after the command and sentinel frames went out, until it reports done.
pub struct ResponseBuilder {
    /// The response text accumulated so far, in packet arrival order.
    pub text: String,
    /// The sentinel's id: the echo that carries it closes the response.
    pub end_id: i32,
    pub done: bool,
    /// The bodies folded in so far, each a packet's body, oldest first.
    pub absorbed: Ghost<Seq<Seq<char>>>,
}

impl ResponseBuilder {
    /// Law: the accumulated text is exactly the absorbed bodies laid end to
    /// end in arrival order — no reordering, no deduplication, and nothing
    /// of the sentinel's own body.
    pub open spec fn wf(self) -> bool {
        self.text@ == concat_texts(self.absorbed@)
    }

    /// An empty accumulator for the response closed by the echo of `end_id`.
    pub fn new(end_id: i32) -> (b: ResponseBuilder)
        ensures
            b.wf(),
            b.text@ == Seq::<char>::empty(),
            b.absorbed@ == Seq::<Seq<char>>::empty(),
            b.end_id == end_id,
            !b.done,
    {
        ResponseBuilder { text: String::new(), end_id, done: false, absorbed: Ghost(Seq::empty()) }
    }

    /// Folds one response packet in. The sentinel's echo closes the response
    /// and its own body is discarded; any other packet's body is appended
    /// behind what came before.
    pub fn absorb(&mut self, p: &Packet)
        requires
            !old(self).done,
            old(self).wf(),
        ensures
            final(self).wf(),
            final(self).end_id == old(self).end_id,
            p.id == old(self).end_id ==> final(self).done && final(self).text@ == old(self).text@
                && final(self).absorbed@ == old(self).absorbed@,
            p.id != old(self).end_id ==> !final(self).done && final(self).absorbed@ == old(
                self,
            ).absorbed@.push(p.body@) && final(self).text@ == old(self).text@ + p.body@,
    {
        if p.id == self.end_id {
            self.done = true;
        } else {
            self.text.append(p.body.as_str());
            proof {
                lemma_concat_texts_push(self.absorbed@, p.body@);
            }
            self.absorbed = Ghost(self.absorbed@.push(p.body@));
        }
    }

    /// True once the sentinel's echo has arrived.
    pub fn is_done(&self) -> (r: bool)
        ensures
            r == self.done,
    {
        self.done
    }

    /// The complete response text: the absorbed bodies in arrival order.
    pub fn finish(self) -> (s: String)
        ensures
            s@ == self.text@,
            self.wf() ==> s@ == concat_texts(self.absorbed@),
    {
        self.text
    }
}

} // verus!
