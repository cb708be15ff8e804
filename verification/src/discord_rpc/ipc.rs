//! Framing for the named-pipe transport: an 8-byte little-endian header
//! (opcode, then payload length) followed by the payload bytes.

use vstd::prelude::*;
use vstd::utf8::{encode_utf8, valid_utf8};

verus! {

/// The first frame of a connection.
pub const OPCODE_HANDSHAKE: u32 = 0;

/// A data frame.
pub const OPCODE_FRAME: u32 = 1;

/// The peer closes the connection.
pub const OPCODE_CLOSE: u32 = 2;

/// A keepalive question.
pub const OPCODE_PING: u32 = 3;

/// The answer to a keepalive question.
pub const OPCODE_PONG: u32 = 4;

/// How long to wait before a busy pipe endpoint is tried again.
pub const PIPE_RETRY_MS: u64 = 100;

/// Number of well-known pipe endpoints, tried by index from zero.
pub const PIPE_COUNT: u8 = 10;

/// The four bytes of `x`, least significant first.
pub open spec fn le_bytes(x: u32) -> Seq<u8> {
    seq![
        (x % 256) as u8,
        ((x / 256) % 256) as u8,
        ((x / 65536) % 256) as u8,
        ((x / 16777216) % 256) as u8,
    ]
}

/// The number whose little-endian bytes are `b[at..at + 4]`.
pub open spec fn le_value(b: Seq<u8>, at: int) -> int {
    b[at] + 256 * b[at + 1] + 65536 * b[at + 2] + 16777216 * b[at + 3]
}

/// The bytes of one frame.
pub open spec fn frame_bytes(opcode: u32, payload: Seq<u8>) -> Seq<u8> {
    le_bytes(opcode) + le_bytes(payload.len() as u32) + payload
}

/// Whether `buffer` begins with a complete frame.
pub open spec fn frame_ready(buffer: Seq<u8>) -> bool {
    buffer.len() >= 8 && buffer.len() >= 8 + le_value(buffer, 4)
}

fn push_le(out: &mut Vec<u8>, x: u32)
    ensures
        final(out)@ == old(out)@ + le_bytes(x),
{
    out.push((x % 256) as u8);
    out.push(((x / 256) % 256) as u8);
    out.push(((x / 65536) % 256) as u8);
    out.push(((x / 16777216) % 256) as u8);
    proof {
        assert(out@ =~= old(out)@ + le_bytes(x));
    }
}

/// The bytes of a frame with the given opcode and payload; `None` when the
/// payload is too long for the header's length field.
pub fn send_frame(opcode: u32, payload: &[u8]) -> (frame: Option<Vec<u8>>)
    ensures
        frame is Some <==> payload@.len() <= u32::MAX,
        frame is Some ==> frame->0@ == frame_bytes(opcode, payload@),
{
    if payload.len() > u32::MAX as usize {
        return None;
    }
    let mut out: Vec<u8> = Vec::new();
    push_le(&mut out, opcode);
    push_le(&mut out, payload.len() as u32);
    let ghost head = out@;
    let mut i: usize = 0;
    proof {
        assert(out@ =~= head + payload@.take(0));
    }
    while i < payload.len()
        invariant
            i <= payload@.len(),
            out@ == head + payload@.take(i as int),
        decreases payload@.len() - i,
    {
        out.push(payload[i]);
        i = i + 1;
        proof {
            assert(out@ =~= head + payload@.take(i as int));
        }
    }
    proof {
        assert(payload@.take(payload@.len() as int) =~= payload@);
        assert(out@ =~= frame_bytes(opcode, payload@));
    }
    Some(out)
}

/// A pong frame that echoes the payload of a ping.
pub fn send_pong(payload: &[u8]) -> (frame: Option<Vec<u8>>)
    ensures
        frame is Some <==> payload@.len() <= u32::MAX,
        frame is Some ==> frame->0@ == frame_bytes(OPCODE_PONG, payload@),
{
    send_frame(OPCODE_PONG, payload)
}

/// The first frame after connecting, which carries the handshake.
pub fn send_handshake(payload: &[u8]) -> (frame: Option<Vec<u8>>)
    ensures
        frame is Some <==> payload@.len() <= u32::MAX,
        frame is Some ==> frame->0@ == frame_bytes(OPCODE_HANDSHAKE, payload@),
{
    send_frame(OPCODE_HANDSHAKE, payload)
}

fn read_le(b: &Vec<u8>, at: usize) -> (x: u32)
    requires
        at + 4 <= b@.len(),
        b@.len() <= usize::MAX,
    ensures
        x == le_value(b@, at as int),
{
    let b0: u32 = b[at] as u32;
    let b1: u32 = b[at + 1] as u32;
    let b2: u32 = b[at + 2] as u32;
    let b3: u32 = b[at + 3] as u32;
    b0 + 256 * b1 + 65536 * b2 + 16777216 * b3
}

/// The receiving side of a pipe connection: the bytes that have arrived
/// and have not yet been taken out as frames.
pub struct IpcConnection {
    buffer: Vec<u8>,
}

impl IpcConnection {
    /// The bytes that wait to be decoded.
    pub closed spec fn view(&self) -> Seq<u8> {
        self.buffer@
    }

    /// A connection on which nothing has arrived.
    pub fn new() -> (conn: IpcConnection)
        ensures
            conn@ == Seq::<u8>::empty(),
    {
        IpcConnection { buffer: Vec::new() }
    }

    /// Takes in bytes that arrived on the pipe.
    pub fn feed(&mut self, bytes: &[u8])
        ensures
            final(self)@ == old(self)@ + bytes@,
    {
        let mut i: usize = 0;
        proof {
            assert(self.buffer@ =~= old(self)@ + bytes@.take(0));
        }
        while i < bytes.len()
            invariant
                i <= bytes@.len(),
                self.buffer@ == old(self)@ + bytes@.take(i as int),
            decreases bytes@.len() - i,
        {
            self.buffer.push(bytes[i]);
            i = i + 1;
            proof {
                assert(self.buffer@ =~= old(self)@ + bytes@.take(i as int));
            }
        }
        proof {
            assert(bytes@.take(bytes@.len() as int) =~= bytes@);
        }
    }

    /// A data frame that carries the given JSON text.
    pub fn send_json(&self, json: &[u8]) -> (frame: Option<Vec<u8>>)
        ensures
            frame is Some <==> json@.len() <= u32::MAX,
            frame is Some ==> frame->0@ == frame_bytes(OPCODE_FRAME, json@),
    {
        send_frame(OPCODE_FRAME, json)
    }

    /// Takes the next frame out of the buffer when it has arrived in full:
    /// its opcode and its payload. Otherwise the buffer is left as it is.
    pub fn recv_frame(&mut self) -> (frame: Option<(u32, Vec<u8>)>)
        ensures
            frame is Some <==> frame_ready(old(self)@),
            frame is None ==> final(self)@ == old(self)@,
            match frame {
                Some((opcode, payload)) => {
                    let len = le_value(old(self)@, 4);
                    &&& opcode == le_value(old(self)@, 0)
                    &&& payload@ == old(self)@.subrange(8, 8 + len)
                    &&& final(self)@ == old(self)@.skip(8 + len)
                },
                None => true,
            },
    {
        if self.buffer.len() < 8 {
            return None;
        }
        let opcode: u32 = read_le(&self.buffer, 0);
        let len: u32 = read_le(&self.buffer, 4);
        let have: u64 = self.buffer.len() as u64;
        let need: u64 = 8 + len as u64;
        if have < need {
            return None;
        }
        let end: usize = need as usize;
        let mut payload: Vec<u8> = Vec::new();
        let mut i: usize = 8;
        proof {
            assert(payload@ =~= self.buffer@.subrange(8, 8));
        }
        while i < end
            invariant
                8 <= i <= end <= self.buffer@.len(),
                payload@ == self.buffer@.subrange(8, i as int),
            decreases end - i,
        {
            payload.push(self.buffer[i]);
            i = i + 1;
            proof {
                assert(payload@ =~= self.buffer@.subrange(8, i as int));
            }
        }
        let mut rest: Vec<u8> = Vec::new();
        proof {
            assert(rest@ =~= self.buffer@.subrange(end as int, end as int));
        }
        while i < self.buffer.len()
            invariant
                end <= i <= self.buffer@.len(),
                rest@ == self.buffer@.subrange(end as int, i as int),
            decreases self.buffer@.len() - i,
        {
            rest.push(self.buffer[i]);
            i = i + 1;
            proof {
                assert(rest@ =~= self.buffer@.subrange(end as int, i as int));
            }
        }
        proof {
            assert(rest@ =~= self.buffer@.skip(end as int));
        }
        self.buffer = rest;
        Some((opcode, payload))
    }
}

/// `String::from_utf8` turns a vector of bytes into a string when the
/// bytes are valid UTF-8, and then the string's bytes are the given ones;
/// otherwise it gives an error, whose text is handed on as it stands.
#[verifier::external_body]
fn utf8_text(bytes: Vec<u8>) -> (text: Result<String, String>)
    ensures
        text is Ok <==> valid_utf8(bytes@),
        text is Ok ==> encode_utf8(text->Ok_0@) == bytes@,
{
    String::from_utf8(bytes).map_err(|e| e.to_string())
}

/// A frame with its payload read as text.
#[derive(Debug)]
pub struct TextFrame {
    pub opcode: u32,
    pub text: String,
}

impl IpcConnection {
    /// Takes the next frame out of the buffer, as `recv_frame` does, and
    /// reads its payload as UTF-8 text. A payload that is no UTF-8 is an
    /// error; its frame is taken out all the same.
    pub fn recv_text(&mut self) -> (frame: Result<Option<TextFrame>, String>)
        ensures
            !frame_ready(old(self)@) ==> frame is Ok && frame->Ok_0 is None && final(self)@ == old(
                self,
            )@,
            frame_ready(old(self)@) ==> {
                let len = le_value(old(self)@, 4);
                let payload = old(self)@.subrange(8, 8 + len);
                &&& final(self)@ == old(self)@.skip(8 + len)
                &&& frame is Ok <==> valid_utf8(payload)
                &&& frame is Ok ==> {
                    &&& frame->Ok_0 is Some
                    &&& frame->Ok_0->0.opcode == le_value(old(self)@, 0)
                    &&& encode_utf8(frame->Ok_0->0.text@) == payload
                }
            },
    {
        match self.recv_frame() {
            None => Ok(None),
            Some((opcode, payload)) => match utf8_text(payload) {
                Ok(text) => Ok(Some(TextFrame { opcode, text })),
                Err(msg) => Err(msg),
            },
        }
    }
}

/// What the receiver does with a frame, by its opcode.
#[derive(Debug, PartialEq, Eq, Structural, Clone, Copy)]
pub enum FrameDuty {
    /// A data frame: its payload is handed to the client.
    Deliver,
    /// The peer closed the connection.
    Close,
    /// A ping: it is answered by a pong with the same payload.
    AnswerPing,
    /// Any other frame is dropped.
    Ignore,
}

/// Decides what the receiver does with a frame of the given opcode.
pub fn frame_duty(opcode: u32) -> (duty: FrameDuty)
    ensures
        duty == (if opcode == OPCODE_FRAME {
            FrameDuty::Deliver
        } else if opcode == OPCODE_CLOSE {
            FrameDuty::Close
        } else if opcode == OPCODE_PING {
            FrameDuty::AnswerPing
        } else {
            FrameDuty::Ignore
        }),
{
    if opcode == OPCODE_FRAME {
        FrameDuty::Deliver
    } else if opcode == OPCODE_CLOSE {
        FrameDuty::Close
    } else if opcode == OPCODE_PING {
        FrameDuty::AnswerPing
    } else {
        FrameDuty::Ignore
    }
}

/// What to do after an attempt to open a pipe endpoint failed.
#[derive(Debug, PartialEq, Eq, Structural, Clone, Copy)]
pub enum PipeStep {
    /// Wait 100 ms and try the same endpoint once more.
    RetrySame(u8),
    /// Try the endpoint with this index.
    TryNext(u8),
    /// No endpoint is left.
    GiveUp,
}

/// Decides the step after the endpoint `index` could not be opened. A busy
/// endpoint is tried once more; otherwise the next index follows, and
/// after the last one the search ends.
pub fn next_pipe_step(index: u8, busy: bool, retried: bool) -> (step: PipeStep)
    ensures
        step == (if busy && !retried && index < PIPE_COUNT {
            PipeStep::RetrySame(index)
        } else if index < PIPE_COUNT - 1 {
            PipeStep::TryNext((index + 1) as u8)
        } else {
            PipeStep::GiveUp
        }),
{
    if busy && !retried && index < PIPE_COUNT {
        PipeStep::RetrySame(index)
    } else if index < PIPE_COUNT - 1 {
        PipeStep::TryNext(index + 1)
    } else {
        PipeStep::GiveUp
    }
}

/// Reading back the bytes of a number gives the number.
pub proof fn law_le_round_trip(x: u32)
    ensures
        le_value(le_bytes(x), 0) == x,
{
}

/// A buffer that begins with the bytes of a frame is ready, and decoding
/// it gives back the opcode and the payload and leaves what follows.
pub proof fn law_frame_round_trip(opcode: u32, payload: Seq<u8>, rest: Seq<u8>)
    requires
        payload.len() <= u32::MAX,
    ensures
        frame_ready(frame_bytes(opcode, payload) + rest),
        le_value(frame_bytes(opcode, payload) + rest, 0) == opcode,
        le_value(frame_bytes(opcode, payload) + rest, 4) == payload.len(),
        (frame_bytes(opcode, payload) + rest).subrange(8, 8 + payload.len() as int) == payload,
        (frame_bytes(opcode, payload) + rest).skip(8 + payload.len() as int) == rest,
{
    let n = payload.len() as u32;
    let buf = frame_bytes(opcode, payload) + rest;
    law_le_round_trip(opcode);
    law_le_round_trip(n);
    assert(buf.len() == 8 + payload.len() + rest.len());
    assert(buf[0] == le_bytes(opcode)[0] && buf[1] == le_bytes(opcode)[1] && buf[2] == le_bytes(
        opcode,
    )[2] && buf[3] == le_bytes(opcode)[3]);
    assert(buf[4] == le_bytes(n)[0] && buf[5] == le_bytes(n)[1] && buf[6] == le_bytes(n)[2]
        && buf[7] == le_bytes(n)[3]);
    assert(buf.subrange(8, 8 + payload.len() as int) =~= payload);
    assert(buf.skip(8 + payload.len() as int) =~= rest);
}

} // verus!
