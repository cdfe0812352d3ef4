//! The serial link to the device: the frame codec, the allocation of correlation
//! ids, the reassembly of inbound frames and the reading of device replies.
//!
//! A frame on the link is always `COMM_MSG_SIZE` bytes long. It starts with a
//! four-byte header (the payload length plus two as a little-endian 16-bit
//! number, the correlation id, the kind) followed by the payload and zero
//! padding.

use crate::j2534_common::{Parsable, PassthruError};
use crate::text::{decimal, push_decimal, string_from_utf8};
use crate::wire::{lemma_u16_le_round_trip, read_u16_le, u16_le, u16_le_bytes, write_u16_le};
use vstd::prelude::*;
use vstd::slice::{slice_subrange, slice_to_vec};
use vstd::string::StringExecFns;
use vstd::utf8::{decode_utf8, valid_utf8};

verus! {

/// The size of every frame on the link, in bytes.
pub const COMM_MSG_SIZE: usize = 4096;

/// The largest payload that a frame can carry, in bytes.
pub const COMM_MSG_ARG_SIZE: usize = 4092;

/// The result of an operation that can fail with a J2534 status code.
pub type PTResult<T> = Result<T, PassthruError>;

/// The kind of a frame. `Unknown` stands for every kind byte that names no
/// other kind.
#[derive(Debug, Copy, Clone, PartialEq, Eq, Structural)]
pub enum MsgType {
    Unknown,
    LogMsg,
    OpenChannel,
    CloseChannel,
    SetChannelFilter,
    RemoveChannelFilter,
    TransmitChannelData,
    ReceiveChannelData,
    ReadBatt,
    IoctlSet,
    IoctlGet,
    StatusMsg,
    GetFwVersion,
}

impl MsgType {
    /// The kind byte of this kind.
    pub open spec fn raw(self) -> u8 {
        match self {
            MsgType::Unknown => 0x00,
            MsgType::LogMsg => 0x01,
            MsgType::OpenChannel => 0x02,
            MsgType::CloseChannel => 0x03,
            MsgType::SetChannelFilter => 0x04,
            MsgType::RemoveChannelFilter => 0x05,
            MsgType::TransmitChannelData => 0x06,
            MsgType::ReceiveChannelData => 0x07,
            MsgType::ReadBatt => 0x08,
            MsgType::IoctlSet => 0x09,
            MsgType::IoctlGet => 0x10,
            MsgType::StatusMsg => 0xAA,
            MsgType::GetFwVersion => 0xAB,
        }
    }

    /// The kind that a kind byte names.
    pub open spec fn parse(x: u8) -> MsgType {
        if x == 0x01 {
            MsgType::LogMsg
        } else if x == 0x02 {
            MsgType::OpenChannel
        } else if x == 0x03 {
            MsgType::CloseChannel
        } else if x == 0x04 {
            MsgType::SetChannelFilter
        } else if x == 0x05 {
            MsgType::RemoveChannelFilter
        } else if x == 0x06 {
            MsgType::TransmitChannelData
        } else if x == 0x07 {
            MsgType::ReceiveChannelData
        } else if x == 0x08 {
            MsgType::ReadBatt
        } else if x == 0x09 {
            MsgType::IoctlSet
        } else if x == 0x10 {
            MsgType::IoctlGet
        } else if x == 0xAA {
            MsgType::StatusMsg
        } else if x == 0xAB {
            MsgType::GetFwVersion
        } else {
            MsgType::Unknown
        }
    }

    /// Gives the kind byte of this kind.
    pub fn to_raw(self) -> (r: u8)
        ensures
            r == self.raw(),
    {
        match self {
            MsgType::Unknown => 0x00,
            MsgType::LogMsg => 0x01,
            MsgType::OpenChannel => 0x02,
            MsgType::CloseChannel => 0x03,
            MsgType::SetChannelFilter => 0x04,
            MsgType::RemoveChannelFilter => 0x05,
            MsgType::TransmitChannelData => 0x06,
            MsgType::ReceiveChannelData => 0x07,
            MsgType::ReadBatt => 0x08,
            MsgType::IoctlSet => 0x09,
            MsgType::IoctlGet => 0x10,
            MsgType::StatusMsg => 0xAA,
            MsgType::GetFwVersion => 0xAB,
        }
    }

    /// Recognises a kind byte. No byte is refused: one that names no kind gives
    /// `Unknown`.
    pub fn from_u8(s: &u8) -> (r: MsgType)
        ensures
            r == MsgType::parse(*s),
    {
        match *s {
            0x01 => MsgType::LogMsg,
            0x02 => MsgType::OpenChannel,
            0x03 => MsgType::CloseChannel,
            0x04 => MsgType::SetChannelFilter,
            0x05 => MsgType::RemoveChannelFilter,
            0x06 => MsgType::TransmitChannelData,
            0x07 => MsgType::ReceiveChannelData,
            0x08 => MsgType::ReadBatt,
            0x09 => MsgType::IoctlSet,
            0x10 => MsgType::IoctlGet,
            0xAA => MsgType::StatusMsg,
            0xAB => MsgType::GetFwVersion,
            _ => MsgType::Unknown,
        }
    }

    /// Every kind is the kind that its own byte names.
    pub proof fn lemma_parse_raw(k: MsgType)
        ensures
            MsgType::parse(k.raw()) == k,
    {
    }
}

/// What a frame says: its correlation id, its kind and its payload.
pub struct Frame {
    pub id: u8,
    pub kind: MsgType,
    pub payload: Seq<u8>,
}

/// The bytes of a frame on the link: header, payload, zero padding.
pub open spec fn encode(f: Frame) -> Seq<u8>
    recommends
        f.payload.len() <= 4092,
{
    u16_le_bytes((f.payload.len() + 2) as u16) + seq![f.id, f.kind.raw()] + f.payload + Seq::new(
        (4092 - f.payload.len()) as nat,
        |i: int| 0u8,
    )
}

/// The payload length that the header of `b` announces.
pub open spec fn announced_len(b: Seq<u8>) -> int
    recommends
        b.len() >= 2,
{
    u16_le(b) - 2
}

/// Holds of bytes that start with a header whose announced payload is there.
pub open spec fn decodable(b: Seq<u8>) -> bool {
    &&& b.len() >= 4
    &&& 0 <= announced_len(b)
    &&& 4 + announced_len(b) <= b.len()
}

/// The frame that the bytes `b` spell.
pub open spec fn decode(b: Seq<u8>) -> Frame
    recommends
        decodable(b),
{
    Frame { id: b[2], kind: MsgType::parse(b[3]), payload: b.subrange(4, 4 + announced_len(b)) }
}

/// Every frame with a payload of at most 4092 bytes encodes to exactly 4096 bytes
/// that decode back to the same frame.
pub proof fn lemma_frame_round_trip(f: Frame)
    requires
        f.payload.len() <= 4092,
    ensures
        encode(f).len() == 4096,
        decodable(encode(f)),
        decode(encode(f)) == f,
{
    let n = f.payload.len();
    let head = u16_le_bytes((n + 2) as u16);
    let rest = seq![f.id, f.kind.raw()] + f.payload + Seq::new((4092 - n) as nat, |i: int| 0u8);
    let b = encode(f);
    assert(b =~= head + rest);
    lemma_u16_le_round_trip((n + 2) as u16, rest);
    assert(announced_len(b) == n);
    assert(b[2] == f.id);
    assert(b[3] == f.kind.raw());
    MsgType::lemma_parse_raw(f.kind);
    assert(b.subrange(4, 4 + n as int) =~= f.payload);
}

/// A payload as a frame carries it: cut after 4092 bytes where it is longer.
pub open spec fn clipped(args: Seq<u8>) -> Seq<u8> {
    if args.len() <= 4092 {
        args
    } else {
        args.subrange(0, 4092)
    }
}

/// A message to or from the device.
#[derive(Debug, Clone, PartialEq, Eq)]
pub struct CommMsg {
    /// The correlation id; 0 asks for no reply.
    pub msg_id: u8,
    /// The kind of the message.
    pub msg_type: MsgType,
    /// The payload.
    pub args: Vec<u8>,
}

impl View for CommMsg {
    type V = Frame;

    open spec fn view(&self) -> Frame {
        Frame { id: self.msg_id, kind: self.msg_type, payload: self.args@ }
    }
}

impl CommMsg {
    /// A message fits in a frame when its payload is at most 4092 bytes long.
    pub open spec fn wf(&self) -> bool {
        self.args@.len() <= 4092
    }

    /// Tells whether `buf` starts with a header whose announced payload is there,
    /// which is what `from_vec` asks of its input.
    pub fn can_decode(buf: &[u8]) -> (r: bool)
        ensures
            r == decodable(buf@),
    {
        if buf.len() < 4 {
            return false;
        }
        let announced: u16 = read_u16_le(buf);
        announced >= 2 && (announced as usize) - 2 <= buf.len() - 4
    }

    /// Decodes the frame that `buf` spells. Bytes after the announced payload are
    /// ignored, and no kind byte is refused.
    pub fn from_vec(buf: &[u8]) -> (r: Self)
        requires
            decodable(buf@),
        ensures
            r@ == decode(buf@),
            r.wf() <== buf@.len() <= 4096,
    {
        let announced: u16 = read_u16_le(buf);
        let size: usize = (announced as usize) - 2;
        CommMsg {
            msg_id: buf[2],
            msg_type: MsgType::from_u8(&buf[3]),
            args: slice_to_vec(slice_subrange(buf, 4, size + 4)),
        }
    }

    /// A message of the given kind with no payload and id 0.
    pub fn new(msg_type: MsgType) -> (r: Self)
        ensures
            r@ == (Frame { id: 0, kind: msg_type, payload: Seq::empty() }),
            r.wf(),
    {
        CommMsg { msg_type, args: Vec::new(), msg_id: 0 }
    }

    /// A message of the given kind with id 0 whose payload is `args_array`, cut
    /// after 4092 bytes where it is longer.
    pub fn new_with_args(msg_type: MsgType, args_array: &[u8]) -> (r: Self)
        ensures
            r@ == (Frame { id: 0, kind: msg_type, payload: clipped(args_array@) }),
            r.wf(),
    {
        let max_copy: usize = if args_array.len() <= COMM_MSG_ARG_SIZE {
            args_array.len()
        } else {
            COMM_MSG_ARG_SIZE
        };
        let args = slice_to_vec(slice_subrange(args_array, 0, max_copy));
        assert(args_array@.len() <= 4092 ==> args@ =~= args_array@);
        CommMsg { msg_type, args, msg_id: 0 }
    }

    /// The number of bytes of `args` that `put_args` copies.
    pub open spec fn put_len(args: Seq<u8>) -> int {
        if args.len() <= 4092 {
            args.len() as int
        } else {
            4092
        }
    }

    /// Overwrites the start of the payload with `args`, cut after 4092 bytes where
    /// it is longer. The payload keeps its length, so it must be at least as long
    /// as what is copied.
    pub fn put_args(&mut self, args: &[u8])
        requires
            CommMsg::put_len(args@) <= old(self).args@.len(),
        ensures
            final(self).msg_id == old(self).msg_id,
            final(self).msg_type == old(self).msg_type,
            final(self).args@ == args@.subrange(0, CommMsg::put_len(args@)) + old(
                self,
            ).args@.subrange(CommMsg::put_len(args@), old(self).args@.len() as int),
    {
        let max_copy: usize = if args.len() <= COMM_MSG_ARG_SIZE {
            args.len()
        } else {
            COMM_MSG_ARG_SIZE
        };
        let mut i: usize = 0;
        while i < max_copy
            invariant
                i <= max_copy <= args@.len(),
                max_copy == CommMsg::put_len(args@),
                max_copy <= self.args@.len(),
                self.msg_id == old(self).msg_id,
                self.msg_type == old(self).msg_type,
                self.args@.len() == old(self).args@.len(),
                self.args@ == args@.subrange(0, i as int) + old(self).args@.subrange(
                    i as int,
                    old(self).args@.len() as int,
                ),
            decreases max_copy - i,
        {
            self.args[i] = args[i];
            i += 1;
        }
    }

    /// Changes the kind of the message.
    pub fn set_type(&mut self, msg_type: MsgType)
        ensures
            final(self).msg_type == msg_type,
            final(self).msg_id == old(self).msg_id,
            final(self).args == old(self).args,
    {
        self.msg_type = msg_type;
    }

    /// Encodes the message as one frame of exactly 4096 bytes.
    pub fn to_slice(&self) -> (r: Vec<u8>)
        requires
            self.wf(),
        ensures
            r@ == encode(self@),
            r@.len() == 4096,
    {
        let n: usize = self.args.len();
        let mut params: Vec<u8> = Vec::with_capacity(COMM_MSG_SIZE);
        write_u16_le(&mut params, (n + 2) as u16);
        params.push(self.msg_id);
        params.push(self.msg_type.to_raw());
        let ghost head = params@;
        let mut i: usize = 0;
        while i < n
            invariant
                i <= n,
                n == self.args@.len(),
                params@ == head + self.args@.subrange(0, i as int),
            decreases n - i,
        {
            params.push(self.args[i]);
            i += 1;
        }
        let ghost body = params@;
        let mut k: usize = n;
        while k < COMM_MSG_ARG_SIZE
            invariant
                n <= k <= 4092,
                params@ == body + Seq::new((k - n) as nat, |j: int| 0u8),
            decreases 4092 - k,
        {
            params.push(0);
            k += 1;
        }
        assert(params@ =~= encode(self@));
        params
    }
}

/// A request that is ready to go to the device: the message, whether its reply
/// is to be awaited, and for how many milliseconds.
#[derive(Debug, Clone, PartialEq, Eq)]
pub struct M2Request {
    pub msg: CommMsg,
    pub require_response: bool,
    pub timeout_ms: u128,
}

/// What came of a request to the device: the payload of a successful reply, or
/// a status code with a description of what went wrong.
#[derive(Debug, Clone, PartialEq, Eq)]
pub enum M2Resp {
    /// The device did what was asked; the payload of its reply.
    Success(Vec<u8>),
    /// The request failed.
    Failure { status: PassthruError, string: String },
}

/// What an `M2Resp` says.
pub enum M2Outcome {
    Data(Seq<u8>),
    Failure { status: PassthruError, text: Seq<char> },
}

impl View for M2Resp {
    type V = M2Outcome;

    open spec fn view(&self) -> M2Outcome {
        match self {
            M2Resp::Success(args) => M2Outcome::Data(args@),
            M2Resp::Failure { status, string } => M2Outcome::Failure { status: *status, text: string@ },
        }
    }
}

/// The outcome of a request that never got a reply: the transport's own status
/// code and a description that names it.
pub open spec fn comm_failure(e: PassthruError) -> M2Outcome {
    M2Outcome::Failure { status: e, text: "M2 communication failure: "@ + e.name_text() }
}

/// The outcome that a reply's payload spells. The first byte is the status; what
/// follows is the data of a success or the UTF-8 description of a failure. A
/// reply without a status byte, or with one that names no status, counts as an
/// unspecified failure; a description that is not valid UTF-8 counts as none.
pub open spec fn read_reply(payload: Seq<u8>) -> M2Outcome {
    if payload.len() == 0 {
        M2Outcome::Failure { status: PassthruError::ERR_FAILED, text: "Empty response"@ }
    } else {
        let rest = payload.subrange(1, payload.len() as int);
        match <PassthruError as Parsable>::parse(payload[0] as u32) {
            None => M2Outcome::Failure {
                status: PassthruError::ERR_FAILED,
                text: "Unrecognized status "@ + decimal(payload[0] as nat),
            },
            Some(PassthruError::STATUS_NOERROR) => M2Outcome::Data(rest),
            Some(status) => M2Outcome::Failure {
                status,
                text: if valid_utf8(rest) {
                    decode_utf8(rest)
                } else {
                    Seq::empty()
                },
            },
        }
    }
}

/// Hands out correlation ids. The counter runs through the 32-bit numbers and
/// wraps; an id is the counter's low byte, and a low byte of 0 is skipped.
#[derive(Debug, Clone, Copy, PartialEq, Eq)]
pub struct MsgIdCounter {
    pub value: u32,
}

impl MsgIdCounter {
    /// The id that a counter standing at `counter` hands out next.
    pub open spec fn id_at(counter: u32) -> u8 {
        if counter % 256 == 0 {
            1u8
        } else {
            (counter % 256) as u8
        }
    }

    /// Where a counter standing at `counter` stands after handing out one id.
    pub open spec fn advance(counter: u32) -> u32 {
        if counter % 256 == 0 {
            ((counter + 2) % 0x1_0000_0000) as u32
        } else {
            ((counter + 1) % 0x1_0000_0000) as u32
        }
    }

    /// The id of the call that follows `n` earlier calls on a counter that stood
    /// at `counter`.
    pub open spec fn nth_id(counter: u32, n: nat) -> u8
        decreases n,
    {
        if n == 0 {
            Self::id_at(counter)
        } else {
            Self::nth_id(Self::advance(counter), (n - 1) as nat)
        }
    }

    /// A counter that has handed out nothing yet.
    pub fn new() -> (r: Self)
        ensures
            r.value == 0,
    {
        MsgIdCounter { value: 0 }
    }

    /// Hands out the next id. It is never 0.
    pub fn get_id(&mut self) -> (id: u8)
        ensures
            id == Self::id_at(old(self).value),
            id != 0,
            final(self).value == Self::advance(old(self).value),
    {
        let v: u8 = (self.value % 256) as u8;
        self.value = self.value.wrapping_add(1);
        if v == 0 {
            let w: u8 = (self.value % 256) as u8;
            self.value = self.value.wrapping_add(1);
            w
        } else {
            v
        }
    }

    /// After any id comes its successor in the cycle 1, 2, ..., 255, 1, ...
    pub proof fn lemma_next_id(counter: u32)
        ensures
            Self::id_at(counter) != 0,
            Self::id_at(Self::advance(counter)) as int == Self::id_at(counter) as int % 255 + 1,
    {
    }

    /// The ids run through the cycle 1, 2, ..., 255: the call after `n` others
    /// gets the id `n` places after the first call's.
    pub proof fn lemma_ids_cycle(counter: u32, n: nat)
        ensures
            Self::nth_id(counter, n) as int == (Self::id_at(counter) as int - 1 + n as int) % 255
                + 1,
        decreases n,
    {
        Self::lemma_next_id(counter);
        if n > 0 {
            Self::lemma_ids_cycle(Self::advance(counter), (n - 1) as nat);
            let a: int = Self::id_at(counter) as int;
            let b: int = Self::id_at(Self::advance(counter)) as int;
            assert(b == a % 255 + 1);
            assert((b - 1 + (n - 1)) % 255 == (a - 1 + n) % 255) by {
                if a == 255 {
                    assert(b - 1 + (n - 1) == (a - 1 + n) - 255);
                } else {
                    assert(b - 1 + (n - 1) == a - 1 + n);
                }
            }
        }
    }

    /// No id is 0, and no id comes again before the 254 ids that follow it: any
    /// 255 calls in a row get 255 different ids.
    pub proof fn lemma_ids_unique(counter: u32, i: nat, j: nat)
        requires
            i < j < i + 255,
        ensures
            Self::nth_id(counter, i) != 0,
            Self::nth_id(counter, j) != 0,
            Self::nth_id(counter, i) != Self::nth_id(counter, j),
    {
        Self::lemma_ids_cycle(counter, i);
        Self::lemma_ids_cycle(counter, j);
        let a: int = Self::id_at(counter) as int - 1;
        assert(0 <= a < 255) by {
            Self::lemma_next_id(counter);
        }
        let x: int = a + i as int;
        let d: int = j as int - i as int;
        assert(0 < d < 255);
        assert((x + d) % 255 != x % 255);
    }
}

/// What the caller that waits for a reply does with what came.
#[derive(Debug, Clone, PartialEq, Eq)]
pub enum AwaitStep {
    /// The reply to the request: the wait is over.
    Matched(CommMsg),
    /// Some other reply: it is dropped and the wait goes on.
    Mismatch(CommMsg),
    /// Nothing came before the deadline: the wait is over.
    TimedOut,
}

/// What the worker does with a frame that it decoded.
#[derive(Debug, Clone, PartialEq, Eq)]
pub enum Dispatch {
    /// A log frame: its payload goes to the log sink.
    Log(Vec<u8>),
    /// Data received on a channel: it goes to the channel registry.
    ChannelData(CommMsg),
    /// A reply: it goes to the caller that waits for its id.
    Response(CommMsg),
    /// A frame with id 0 that nobody waits for.
    Discard,
}

/// The state of the link to an opened device.
#[derive(Debug, Clone, Copy, PartialEq, Eq)]
pub struct MacchinaM2 {
    /// Whether the worker is to go on.
    pub is_running: bool,
    /// The source of correlation ids.
    pub msg_id: MsgIdCounter,
}

impl MacchinaM2 {
    /// The frame that announces the host: kind `StatusMsg`, payload 1.
    pub open spec fn start_frame() -> Frame {
        Frame { id: 0, kind: MsgType::StatusMsg, payload: seq![1u8] }
    }

    /// The frame that takes leave of the device: kind `StatusMsg`, payload 0.
    pub open spec fn stop_frame() -> Frame {
        Frame { id: 0, kind: MsgType::StatusMsg, payload: seq![0u8] }
    }

    /// The state of a link that was just opened, and the frame that the worker
    /// sends first.
    pub fn open_connection() -> (r: (Self, CommMsg))
        ensures
            r.0.is_running,
            r.0.msg_id.value == 0,
            r.1@ == Self::start_frame(),
            r.1.wf(),
    {
        let mut payload: Vec<u8> = Vec::new();
        payload.push(0x01);
        let msg = CommMsg::new_with_args(MsgType::StatusMsg, payload.as_slice());
        (MacchinaM2 { is_running: true, msg_id: MsgIdCounter::new() }, msg)
    }

    /// Marks a message as one that needs no reply: its id becomes 0. The result is
    /// what goes to the worker.
    pub fn write_comm_struct(&self, s: CommMsg) -> (r: CommMsg)
        ensures
            r@ == (Frame { id: 0, ..s@ }),
    {
        let mut s = s;
        s.msg_id = 0x00;
        s
    }

    /// Stamps a message with the next correlation id, which is returned. The
    /// message then goes to the worker, and the caller waits for a reply with
    /// that id.
    pub fn write_and_read(&mut self, msg: &mut CommMsg) -> (query_id: u8)
        ensures
            query_id == MsgIdCounter::id_at(old(self).msg_id.value),
            query_id != 0,
            final(self).msg_id.value == MsgIdCounter::advance(old(self).msg_id.value),
            final(self).is_running == old(self).is_running,
            final(msg)@ == (Frame { id: query_id, ..old(msg)@ }),
    {
        let query_id = self.msg_id.get_id();
        msg.msg_id = query_id;
        query_id
    }

    /// Decides what a waiting caller does with `incoming`: a reply that came, or
    /// `None` when the deadline passed with nothing there.
    pub fn on_reply(query_id: u8, incoming: Option<CommMsg>) -> (r: AwaitStep)
        ensures
            match incoming {
                None => r is TimedOut,
                Some(m) => if m.msg_id == query_id {
                    r == AwaitStep::Matched(m)
                } else {
                    r == AwaitStep::Mismatch(m)
                },
            },
    {
        match incoming {
            None => AwaitStep::TimedOut,
            Some(m) => if m.msg_id == query_id {
                AwaitStep::Matched(m)
            } else {
                AwaitStep::Mismatch(m)
            },
        }
    }

    /// What a caller gets when the wait is over: the reply, or `ERR_TIMEOUT` when
    /// none came.
    pub fn finish_wait(step: AwaitStep) -> (r: Option<PTResult<CommMsg>>)
        ensures
            match step {
                AwaitStep::Matched(m) => r == Some(PTResult::<CommMsg>::Ok(m)),
                AwaitStep::Mismatch(_) => r is None,
                AwaitStep::TimedOut => r == Some(
                    PTResult::<CommMsg>::Err(PassthruError::ERR_TIMEOUT),
                ),
            },
    {
        match step {
            AwaitStep::Matched(m) => Some(Ok(m)),
            AwaitStep::Mismatch(_) => None,
            AwaitStep::TimedOut => Some(Err(PassthruError::ERR_TIMEOUT)),
        }
    }

    /// Reads what came of a request: the transport's failure, or the reply of the
    /// device with its status byte taken off.
    pub fn write_and_read_ptcmd(reply: PTResult<CommMsg>) -> (r: M2Resp)
        ensures
            match reply {
                Err(e) => r@ == comm_failure(e),
                Ok(m) => r@ == read_reply(m.args@),
            },
    {
        match reply {
            Err(e) => {
                let mut string = "M2 communication failure: ".to_owned();
                string.append(e.name());
                M2Resp::Failure { status: e, string }
            },
            Ok(resp) => {
                if resp.args.len() == 0 {
                    return M2Resp::Failure {
                        status: PassthruError::ERR_FAILED,
                        string: "Empty response".to_owned(),
                    };
                }
                let code: u8 = resp.args[0];
                let mut args = resp.args;
                let rest = args.split_off(1);
                match PassthruError::from_raw(code as u32) {
                    None => {
                        let mut string = "Unrecognized status ".to_owned();
                        push_decimal(&mut string, code as u32);
                        M2Resp::Failure { status: PassthruError::ERR_FAILED, string }
                    },
                    Some(PassthruError::STATUS_NOERROR) => M2Resp::Success(rest),
                    Some(status) => {
                        match string_from_utf8(rest) {
                            Some(string) => M2Resp::Failure { status, string },
                            None => M2Resp::Failure { status, string: String::new() },
                        }
                    },
                }
            },
        }
    }

    /// Tells the worker to stop. The result is the frame that the worker sends
    /// last.
    pub fn stop(&mut self) -> (r: CommMsg)
        ensures
            !final(self).is_running,
            final(self).msg_id == old(self).msg_id,
            r@ == Self::stop_frame(),
            r.wf(),
    {
        self.is_running = false;
        let mut payload: Vec<u8> = Vec::new();
        payload.push(0x00);
        let msg = CommMsg::new_with_args(MsgType::StatusMsg, payload.as_slice());
        msg
    }

    /// Sorts a frame that the worker decoded: log frames go to the log, channel
    /// data to the registry, anything else to the caller that waits for its id,
    /// unless the id is 0 and nobody waits.
    pub fn dispatch(msg: CommMsg) -> (r: Dispatch)
        ensures
            match msg.msg_type {
                MsgType::LogMsg => r == Dispatch::Log(msg.args),
                MsgType::ReceiveChannelData => r == Dispatch::ChannelData(msg),
                _ => if msg.msg_id == 0 {
                    r is Discard
                } else {
                    r == Dispatch::Response(msg)
                },
            },
    {
        match msg.msg_type {
            MsgType::LogMsg => Dispatch::Log(msg.args),
            MsgType::ReceiveChannelData => Dispatch::ChannelData(msg),
            _ => if msg.msg_id == 0 {
                Dispatch::Discard
            } else {
                Dispatch::Response(msg)
            },
        }
    }
}

/// What the worker finds at the head of its receive buffer.
#[derive(Debug, Clone, PartialEq, Eq)]
pub enum FrameStep {
    /// Less than one frame is buffered.
    Incomplete,
    /// One frame's worth of bytes was taken off whose header announces more
    /// payload than a frame holds, or less than none.
    Malformed,
    /// One frame was taken off and decoded.
    Frame(CommMsg),
}

/// The worker's receive buffer: the bytes read from the port that no frame has
/// been cut from yet. It holds at most four frames' worth.
pub struct RxBuffer {
    data: Vec<u8>,
}

impl View for RxBuffer {
    type V = Seq<u8>;

    closed spec fn view(&self) -> Seq<u8> {
        self.data@
    }
}

impl RxBuffer {
    /// The number of bytes that the buffer can hold.
    pub const CAPACITY: usize = 16384;

    /// The buffer never holds more than its capacity. Every buffer made by `new`
    /// and changed only through `feed` and `next_frame` is well formed.
    pub closed spec fn wf(&self) -> bool {
        self.data@.len() <= 16384
    }

    /// The number of bytes of `incoming` that a buffer holding `held` takes.
    pub open spec fn room_for(held: Seq<u8>, incoming: Seq<u8>) -> int {
        if held.len() + incoming.len() <= 16384 {
            incoming.len() as int
        } else {
            16384 - held.len()
        }
    }

    /// An empty buffer.
    pub fn new() -> (r: Self)
        ensures
            r@ == Seq::<u8>::empty(),
            r.wf(),
    {
        RxBuffer { data: Vec::new() }
    }

    /// The number of bytes in the buffer.
    pub fn len(&self) -> (r: usize)
        requires
            self.wf(),
        ensures
            r == self@.len(),
            r <= 16384,
    {
        self.data.len()
    }

    /// Appends what was read from the port, as far as it fits, and tells how many
    /// bytes were taken.
    pub fn feed(&mut self, bytes: &[u8]) -> (taken: usize)
        requires
            old(self).wf(),
        ensures
            final(self).wf(),
            taken == Self::room_for(old(self)@, bytes@),
            final(self)@ == old(self)@ + bytes@.subrange(0, taken as int),
    {
        let free: usize = Self::CAPACITY - self.data.len();
        let taken: usize = if bytes.len() <= free {
            bytes.len()
        } else {
            free
        };
        let mut i: usize = 0;
        while i < taken
            invariant
                i <= taken <= bytes@.len(),
                old(self).data@.len() + taken <= 16384,
                self.data@ == old(self).data@ + bytes@.subrange(0, i as int),
            decreases taken - i,
        {
            self.data.push(bytes[i]);
            i += 1;
        }
        taken
    }

    /// Takes the next frame off the head of the buffer where a whole one is there.
    pub fn next_frame(&mut self) -> (r: FrameStep)
        requires
            old(self).wf(),
        ensures
            final(self).wf(),
            old(self)@.len() < 4096 ==> r is Incomplete && final(self)@ == old(self)@,
            old(self)@.len() >= 4096 ==> {
                &&& final(self)@ == old(self)@.subrange(4096, old(self)@.len() as int)
                &&& if decodable(old(self)@.subrange(0, 4096)) {
                    &&& r matches FrameStep::Frame(m)
                    &&& m@ == decode(old(self)@.subrange(0, 4096))
                    &&& m.wf()
                } else {
                    r is Malformed
                }
            },
    {
        if self.data.len() < COMM_MSG_SIZE {
            return FrameStep::Incomplete;
        }
        let mut head = self.data.split_off(COMM_MSG_SIZE);
        core::mem::swap(&mut self.data, &mut head);
        if CommMsg::can_decode(head.as_slice()) {
            FrameStep::Frame(CommMsg::from_vec(head.as_slice()))
        } else {
            FrameStep::Malformed
        }
    }
}

/// Runs `op` on the device where one is open, and fails with
/// `ERR_DEVICE_NOT_CONNECTED` where none is.
pub fn run_on_m2<T, F: FnOnce(&MacchinaM2) -> PTResult<T>>(m2: &Option<MacchinaM2>, op: F) -> (r:
    PTResult<T>)
    requires
        m2 matches Some(dev) ==> op.requires((&dev,)),
    ensures
        match m2 {
            Some(dev) => op.ensures((&dev,), r),
            None => r == PTResult::<T>::Err(PassthruError::ERR_DEVICE_NOT_CONNECTED),
        },
{
    match m2 {
        Some(dev) => op(dev),
        None => Err(PassthruError::ERR_DEVICE_NOT_CONNECTED),
    }
}

/// The text that the JSON document `content` holds under the key `key` of its
/// top-level object, as `serde_json` reads the document; `None` where the
/// document does not parse, is no object, or holds no text under that key.
pub uninterp spec fn json_text_member(content: Seq<char>, key: Seq<char>) -> Option<Seq<char>>;

/// Parses `content` with `serde_json::from_str` and looks `key` up in the
/// resulting value. Indexing a value by a key gives null where the value is no
/// object or lacks the key, and `as_str` gives the text of a string value and
/// nothing for any other. The outcome depends on `content` and `key` alone.
#[verifier::external_body]
fn json_lookup_text(content: &str, key: &str) -> (r: Option<String>)
    ensures
        match json_text_member(content@, key@) {
            Some(text) => r matches Some(s) && s@ == text,
            None => r is None,
        },
{
    match serde_json::from_str::<serde_json::Value>(content) {
        Ok(v) => v[key].as_str().map(String::from),
        Err(_) => None,
    }
}

/// Finds the path of the serial port in the text of the user's configuration
/// file: the text under the key `COM-PORT`.
pub fn get_comm_port(content: &str) -> (r: Option<String>)
    ensures
        match json_text_member(content@, "COM-PORT"@) {
            Some(text) => r matches Some(s) && s@ == text,
            None => r is None,
        },
{
    json_lookup_text(content, "COM-PORT")
}

} // verus!
