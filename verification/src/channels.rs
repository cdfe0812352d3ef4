//! The channel registry: one slot per bus family, and in each occupied slot a
//! channel with its filter table and its bounded receive queue.
//!
//! Every operation that needs the device comes in two halves. The first half
//! checks what can be checked and builds the request. Whoever owns the link sends
//! it and hands the reply to the second half, which carries the name of the
//! operation, checks again and changes the registry.

use crate::comm::{clipped, CommMsg, Frame, M2Outcome, M2Request, M2Resp, MsgType, PTResult};
use crate::j2534_common::{
    FilterType, IoctlID, IoctlParam, PassthruError, Protocol, SConfig, PASSTHRU_MSG,
};
use crate::passthru_drv::{set_error_string, LastError};
use crate::wire::{append_bytes, read_u32_le, u32_le, u32_le_bytes, write_u32_le};
use std::collections::VecDeque;
use vstd::prelude::*;
use vstd::slice::slice_subrange;

verus! {

/// The number of filters that a channel can hold.
pub const MAX_FILTERS_PER_CHANNEL: usize = 10;

/// The number of received messages that a channel buffers.
pub const MAX_QUEUE_MSGS: usize = 100;

/// The deadline of an ordinary command, in milliseconds.
pub const CMD_TIMEOUT_MS: u128 = 100;

/// The deadline of closing a channel, setting a filter, reading the battery
/// voltage or reading the firmware version, in milliseconds.
pub const SLOW_CMD_TIMEOUT_MS: u128 = 250;

/// What a request came to, as far as the caller's status goes: the reply's data,
/// or the status code of whoever failed.
pub open spec fn device_status(reply: PTResult<M2Resp>) -> PTResult<Seq<u8>> {
    match reply {
        Err(e) => Err(e),
        Ok(resp) => match resp@ {
            M2Outcome::Data(data) => Ok(data),
            M2Outcome::Failure { status, text } => Err(status),
        },
    }
}

/// The description of the last failure after a request: the device's own text
/// where the device refused, and what was there before otherwise.
pub open spec fn error_text_after(before: Seq<char>, reply: PTResult<M2Resp>) -> Seq<char> {
    match reply {
        Err(e) => before,
        Ok(resp) => match resp@ {
            M2Outcome::Data(data) => before,
            M2Outcome::Failure { status, text } => text,
        },
    }
}

/// Turns what came of a request into the caller's result, and keeps the device's
/// description of a refusal as the last error.
pub fn settle(reply: PTResult<M2Resp>, last_error: &mut LastError) -> (r: PTResult<Vec<u8>>)
    ensures
        match device_status(reply) {
            Ok(data) => r matches Ok(v) && v@ == data,
            Err(e) => r matches Err(x) && x == e,
        },
        final(last_error)@ == error_text_after(old(last_error)@, reply),
{
    match reply {
        Err(e) => Err(e),
        Ok(M2Resp::Success(data)) => Ok(data),
        Ok(M2Resp::Failure { status, string }) => {
            set_error_string(last_error, string);
            Err(status)
        },
    }
}

/// The four bus families. Each has one slot in the registry, and a channel's id
/// is the number of its family.
#[derive(Debug, Copy, Clone, PartialEq, Eq, Structural)]
pub enum ChannelID {
    Can,
    Kline,
    J1850,
    Sci,
}

impl ChannelID {
    /// The number of the family.
    pub open spec fn raw(self) -> u32 {
        match self {
            ChannelID::Can => 0,
            ChannelID::Kline => 1,
            ChannelID::J1850 => 2,
            ChannelID::Sci => 3,
        }
    }

    /// The family with the given number, if there is one.
    pub open spec fn parse(id: u32) -> Option<ChannelID> {
        if id == 0 {
            Some(ChannelID::Can)
        } else if id == 1 {
            Some(ChannelID::Kline)
        } else if id == 2 {
            Some(ChannelID::J1850)
        } else if id == 3 {
            Some(ChannelID::Sci)
        } else {
            None
        }
    }

    /// The family that a protocol belongs to.
    pub open spec fn family(p: Protocol) -> ChannelID {
        match p {
            Protocol::ISO15765 | Protocol::CAN => ChannelID::Can,
            Protocol::ISO14230 | Protocol::ISO9141 => ChannelID::Kline,
            Protocol::J1850PWM | Protocol::J1850VPW => ChannelID::J1850,
            Protocol::SCI_A_ENGINE
            | Protocol::SCI_A_TRANS
            | Protocol::SCI_B_ENGINE
            | Protocol::SCI_B_TRANS => ChannelID::Sci,
        }
    }

    /// Gives the number of the family.
    pub fn to_raw(self) -> (r: u32)
        ensures
            r == self.raw(),
            r <= 3,
    {
        match self {
            ChannelID::Can => 0,
            ChannelID::Kline => 1,
            ChannelID::J1850 => 2,
            ChannelID::Sci => 3,
        }
    }

    /// Recognises a channel id; one above 3 is refused with
    /// `ERR_INVALID_CHANNEL_ID`.
    pub fn from_u32(id: u32) -> (r: PTResult<Self>)
        ensures
            match Self::parse(id) {
                Some(c) => r == PTResult::<Self>::Ok(c),
                None => r == PTResult::<Self>::Err(PassthruError::ERR_INVALID_CHANNEL_ID),
            },
    {
        match id {
            0 => Ok(ChannelID::Can),
            1 => Ok(ChannelID::Kline),
            2 => Ok(ChannelID::J1850),
            3 => Ok(ChannelID::Sci),
            _ => Err(PassthruError::ERR_INVALID_CHANNEL_ID),
        }
    }

    /// Gives the family that a protocol belongs to.
    pub fn from_protocol(id: Protocol) -> (r: Self)
        ensures
            r == Self::family(id),
    {
        match id {
            Protocol::ISO15765 | Protocol::CAN => ChannelID::Can,
            Protocol::ISO14230 | Protocol::ISO9141 => ChannelID::Kline,
            Protocol::J1850PWM | Protocol::J1850VPW => ChannelID::J1850,
            Protocol::SCI_A_ENGINE
            | Protocol::SCI_A_TRANS
            | Protocol::SCI_B_ENGINE
            | Protocol::SCI_B_TRANS => ChannelID::Sci,
        }
    }

    /// A family's number names that family.
    pub proof fn lemma_parse_raw(c: ChannelID)
        ensures
            Self::parse(c.raw()) == Some(c),
    {
    }
}

/// Holds of the lowest index of a filter table that is free.
pub open spec fn is_first_free(filters: Seq<bool>, i: int) -> bool {
    &&& 0 <= i < filters.len()
    &&& !filters[i]
    &&& forall|j: int| 0 <= j < i ==> filters[j]
}

/// Holds of a filter table with no free index.
pub open spec fn all_in_use(filters: Seq<bool>) -> bool {
    forall|j: int| 0 <= j < filters.len() ==> filters[j]
}

/// The lowest free index of a filter table, if any index is free.
pub open spec fn first_free(filters: Seq<bool>) -> Option<int> {
    if all_in_use(filters) {
        None
    } else {
        Some(choose|i: int| is_first_free(filters, i))
    }
}

/// A table has at most one lowest free index, and `first_free` is it.
pub proof fn lemma_first_free(filters: Seq<bool>, i: int)
    requires
        is_first_free(filters, i),
    ensures
        first_free(filters) == Some(i),
{
    assert(!all_in_use(filters));
    let c = choose|k: int| is_first_free(filters, k);
    assert(is_first_free(filters, c));
    if c < i {
        assert(filters[c]);
    } else if i < c {
        assert(filters[i]);
    }
}

/// A table with a free index has a lowest free index.
proof fn lemma_lowest_free_exists(filters: Seq<bool>, bound: int)
    requires
        0 <= bound < filters.len(),
        !filters[bound],
    ensures
        exists|i: int| is_first_free(filters, i),
    decreases bound,
{
    if forall|j: int| 0 <= j < bound ==> filters[j] {
        assert(is_first_free(filters, bound));
    } else {
        let j = choose|j: int| 0 <= j < bound && !filters[j];
        lemma_lowest_free_exists(filters, j);
    }
}

/// What `first_free` gives is the lowest free index.
pub proof fn lemma_first_free_is_lowest(filters: Seq<bool>)
    ensures
        first_free(filters) matches Some(i) ==> is_first_free(filters, i),
{
    if !all_in_use(filters) {
        let k = choose|k: int| 0 <= k < filters.len() && !filters[k];
        lemma_lowest_free_exists(filters, k);
    }
}

/// The message that a channel buffers for a frame of received data: the
/// channel's protocol, the frame's flags and bytes, and the arrival time in
/// microseconds cut to 32 bits.
pub open spec fn is_received(
    m: PASSTHRU_MSG,
    protocol: Protocol,
    rx_status: u32,
    data: Seq<u8>,
    now_micros: u128,
) -> bool {
    &&& m.protocol_id == protocol.raw()
    &&& m.rx_status == rx_status
    &&& m.tx_flags == 0
    &&& m.timestamp == now_micros % 0x1_0000_0000
    &&& m.data_size == data.len()
    &&& m.extra_data_size == 0
    &&& m.payload() == data
    &&& forall|i: int| data.len() <= i < 4128 ==> m.data@[i] == 0
}

/// What a channel is: its id and settings, which filters are in use, and the
/// messages it buffers, oldest first.
pub struct ChannelView {
    pub id: u32,
    pub protocol: Protocol,
    pub baud_rate: u32,
    pub flags: u32,
    pub filters: Seq<bool>,
    pub tx: Seq<PASSTHRU_MSG>,
    pub rx: Seq<PASSTHRU_MSG>,
}

impl ChannelView {
    /// A channel that was just opened: no filter in use, nothing buffered.
    pub open spec fn opened(id: u32, protocol: Protocol, baud_rate: u32, flags: u32) -> ChannelView {
        ChannelView {
            id,
            protocol,
            baud_rate,
            flags,
            filters: Seq::new(10, |i: int| false),
            tx: Seq::empty(),
            rx: Seq::empty(),
        }
    }

    /// Adding a filter: a full table fails with `ERR_EXCEEDED_LIMIT` whatever the
    /// device says; otherwise the lowest free index is taken when the device
    /// agrees, and nothing changes when it does not.
    pub open spec fn add_filter(self, status: PTResult<Seq<u8>>) -> (ChannelView, PTResult<u32>) {
        match first_free(self.filters) {
            None => (self, Err(PassthruError::ERR_EXCEEDED_LIMIT)),
            Some(i) => match status {
                Ok(_) => (ChannelView { filters: self.filters.update(i, true), ..self }, Ok(i as u32)),
                Err(e) => (self, Err(e)),
            },
        }
    }

    /// Holds of an index whose filter is in use.
    pub open spec fn filter_in_use(self, id: int) -> bool {
        0 <= id < self.filters.len() && self.filters[id]
    }

    /// Removing a filter: an index that is not in use fails with
    /// `ERR_INVALID_MSG_ID` whatever the device says; otherwise the index is freed
    /// when the device agrees, and nothing changes when it does not.
    pub open spec fn remove_filter(self, id: int, status: PTResult<Seq<u8>>) -> (
        ChannelView,
        PTResult<()>,
    ) {
        if !self.filter_in_use(id) {
            (self, Err(PassthruError::ERR_INVALID_MSG_ID))
        } else {
            match status {
                Ok(_) => (ChannelView { filters: self.filters.update(id, false), ..self }, Ok(())),
                Err(e) => (self, Err(e)),
            }
        }
    }

    /// Why a message cannot be transmitted on this channel, if it cannot: it is of
    /// another protocol, or it claims more bytes than a message holds.
    pub open spec fn transmit_refusal(self, ptmsg: PASSTHRU_MSG) -> Option<PassthruError> {
        if ptmsg.protocol_id != self.protocol.raw() {
            Some(PassthruError::ERR_MSG_PROTOCOL_ID)
        } else if !ptmsg.wf() {
            Some(PassthruError::ERR_INVALID_MSG)
        } else {
            None
        }
    }

    /// Receiving a message: it joins the queue behind the others, unless 100 are
    /// waiting already, in which case it is dropped.
    pub open spec fn receive(self, m: PASSTHRU_MSG) -> ChannelView {
        if self.rx.len() < 100 {
            ChannelView { rx: self.rx.push(m), ..self }
        } else {
            self
        }
    }

    /// Receiving a run of messages, one after the other.
    pub open spec fn receive_all(self, msgs: Seq<PASSTHRU_MSG>) -> ChannelView
        decreases msgs.len(),
    {
        if msgs.len() == 0 {
            self
        } else {
            self.receive(msgs[0]).receive_all(msgs.subrange(1, msgs.len() as int))
        }
    }

    /// While no filter is removed, each added filter gets a higher index than the
    /// one before.
    pub proof fn lemma_filter_ids_increase(self, first: PTResult<Seq<u8>>, second: PTResult<Seq<u8>>)
        requires
            self.filters.len() == 10,
        ensures
            self.add_filter(first).1 matches Ok(a) ==> (self.add_filter(first).0.add_filter(
                second,
            ).1 matches Ok(b) ==> a < b),
    {
        let after = self.add_filter(first).0;
        let id1 = self.add_filter(first).1;
        let id2 = after.add_filter(second).1;
        if id1 is Ok && id2 is Ok {
            lemma_first_free_is_lowest(self.filters);
            lemma_first_free_is_lowest(after.filters);
            let i = first_free(self.filters)->0;
            let j = first_free(after.filters)->0;
            assert(is_first_free(self.filters, i));
            assert(is_first_free(after.filters, j));
            assert(after.filters == self.filters.update(i, true));
            assert(after.filters[i]);
            if j < i {
                assert(self.filters[j]);
                assert(after.filters[j]);
            }
            assert(i < j < 10);
            assert(id1 == PTResult::<u32>::Ok(i as u32));
            assert(id2 == PTResult::<u32>::Ok(j as u32));
        }
    }

    /// A removed filter's index is the next one handed out, where no lower index
    /// is free.
    pub proof fn lemma_removed_filter_id_comes_next(
        self,
        k: int,
        removal: PTResult<Seq<u8>>,
        addition: PTResult<Seq<u8>>,
    )
        requires
            self.filters.len() == 10,
            self.filter_in_use(k),
            forall|j: int| 0 <= j < k ==> self.filters[j],
            removal is Ok,
            addition is Ok,
        ensures
            self.remove_filter(k, removal).1 is Ok,
            self.remove_filter(k, removal).0.add_filter(addition).1 == PTResult::<u32>::Ok(
                k as u32,
            ),
    {
        let after = self.remove_filter(k, removal).0;
        assert(after.filters == self.filters.update(k, false));
        assert(is_first_free(after.filters, k));
        lemma_first_free(after.filters, k);
    }

    /// However many messages arrive, the queue ends with what fits: its length
    /// grows by their number until it is 100 and stays there, and the settings and
    /// filters are untouched.
    pub proof fn lemma_receive_bound(self, msgs: Seq<PASSTHRU_MSG>)
        requires
            self.rx.len() <= 100,
        ensures
            self.receive_all(msgs).rx.len() == if self.rx.len() + msgs.len() <= 100 {
                self.rx.len() + msgs.len()
            } else {
                100
            },
            self.receive_all(msgs).filters == self.filters,
            self.receive_all(msgs).id == self.id,
            self.receive_all(msgs).protocol == self.protocol,
        decreases msgs.len(),
    {
        if msgs.len() > 0 {
            self.receive(msgs[0]).lemma_receive_bound(msgs.subrange(1, msgs.len() as int));
        }
    }
}

/// A protocol channel of the device.
#[derive(Debug, Clone)]
pub struct Channel {
    id: u32,
    protocol: Protocol,
    baud_rate: u32,
    flags: u32,
    filters: [u8; 10],
    tx_data: VecDeque<PASSTHRU_MSG>,
    rx_data: VecDeque<PASSTHRU_MSG>,
}

impl View for Channel {
    type V = ChannelView;

    closed spec fn view(&self) -> ChannelView {
        ChannelView {
            id: self.id,
            protocol: self.protocol,
            baud_rate: self.baud_rate,
            flags: self.flags,
            filters: Seq::new(10, |i: int| self.filters@[i] != 0),
            tx: self.tx_data@,
            rx: self.rx_data@,
        }
    }
}

/// The payload of a request to open a channel.
pub open spec fn open_payload(id: u32, protocol: Protocol, baud_rate: u32, flags: u32) -> Seq<u8> {
    u32_le_bytes(id) + u32_le_bytes(protocol.raw()) + u32_le_bytes(baud_rate) + u32_le_bytes(flags)
}

/// The payload of a request to set a filter: six numbers, then the mask, the
/// pattern and the flow control bytes.
pub open spec fn filter_payload(
    channel_id: u32,
    filter_id: u32,
    filter_type: FilterType,
    mask: Seq<u8>,
    pattern: Seq<u8>,
    fc: Seq<u8>,
) -> Seq<u8> {
    u32_le_bytes(channel_id) + u32_le_bytes(filter_id) + u32_le_bytes(filter_type.raw())
        + u32_le_bytes(mask.len() as u32) + u32_le_bytes(pattern.len() as u32) + u32_le_bytes(
        fc.len() as u32,
    ) + mask + pattern + fc
}

/// The payload of a request that names a channel and one more number.
pub open spec fn pair_payload(channel_id: u32, second: u32) -> Seq<u8> {
    u32_le_bytes(channel_id) + u32_le_bytes(second)
}

/// The payload of a request to transmit: the channel, the flags, the bytes.
pub open spec fn transmit_payload(channel_id: u32, tx_flags: u32, data: Seq<u8>) -> Seq<u8> {
    u32_le_bytes(channel_id) + u32_le_bytes(tx_flags) + data
}

/// Holds of a request that awaits its reply for `timeout_ms` and carries a
/// message of the given kind and payload, cut to what a frame holds.
pub open spec fn is_request(q: M2Request, kind: MsgType, payload: Seq<u8>, timeout_ms: u128) -> bool {
    &&& q.msg@ == (Frame { id: 0, kind, payload: clipped(payload) })
    &&& q.msg.wf()
    &&& q.require_response
    &&& q.timeout_ms == timeout_ms
}

impl Channel {
    /// A channel never buffers more than 100 received messages. Every channel
    /// made by `new` and changed only through its methods is well formed.
    pub closed spec fn wf(&self) -> bool {
        self.rx_data@.len() <= 100
    }

    /// What a well-formed channel's view shows of it.
    pub proof fn lemma_wf_view(&self)
        requires
            self.wf(),
        ensures
            self@.rx.len() <= 100,
            self@.filters.len() == 10,
    {
    }

    /// The request that asks the device to open a channel.
    pub fn open_request(id: u32, protocol: Protocol, baud_rate: u32, flags: u32) -> (r: M2Request)
        ensures
            is_request(r, MsgType::OpenChannel, open_payload(id, protocol, baud_rate, flags), 100),
    {
        let mut dst: Vec<u8> = Vec::new();
        write_u32_le(&mut dst, id);
        write_u32_le(&mut dst, protocol.to_raw());
        write_u32_le(&mut dst, baud_rate);
        write_u32_le(&mut dst, flags);
        let msg = CommMsg::new_with_args(MsgType::OpenChannel, dst.as_slice());
        M2Request { msg, require_response: true, timeout_ms: CMD_TIMEOUT_MS }
    }

    /// Makes the channel once the device has answered the request to open it.
    /// Where the device refused or did not answer there is no channel, and the
    /// device's description of a refusal becomes the last error.
    pub fn new(
        id: u32,
        protocol: Protocol,
        baud_rate: u32,
        flags: u32,
        reply: PTResult<M2Resp>,
        last_error: &mut LastError,
    ) -> (r: PTResult<Self>)
        ensures
            match device_status(reply) {
                Ok(_) => r matches Ok(c) && c.wf() && c@ == ChannelView::opened(
                    id,
                    protocol,
                    baud_rate,
                    flags,
                ),
                Err(e) => r matches Err(x) && x == e,
            },
            final(last_error)@ == error_text_after(old(last_error)@, reply),
    {
        match settle(reply, last_error) {
            Ok(_) => {
                let c = Channel {
                    id,
                    protocol,
                    baud_rate,
                    flags,
                    filters: [0x00;10],
                    tx_data: VecDeque::new(),
                    rx_data: VecDeque::new(),
                };
                assert(c@.filters =~= Seq::new(10, |i: int| false));
                Ok(c)
            },
            Err(status) => Err(status),
        }
    }

    /// Finds the lowest free index of the filter table.
    fn find_free_filter(&self) -> (r: Option<usize>)
        ensures
            match r {
                Some(i) => first_free(self@.filters) == Some(i as int) && i < 10,
                None => first_free(self@.filters) is None,
            },
    {
        let mut i: usize = 0;
        while i < MAX_FILTERS_PER_CHANNEL
            invariant
                i <= 10,
                forall|j: int| 0 <= j < i ==> self@.filters[j],
            decreases 10 - i,
        {
            if self.filters[i] == 0 {
                proof {
                    lemma_first_free(self@.filters, i as int);
                }
                return Some(i);
            }
            i += 1;
        }
        None
    }

    /// The request that asks the device to set a filter at the lowest free index.
    /// A full table is refused with `ERR_EXCEEDED_LIMIT`.
    pub fn add_filter_request(
        &self,
        filter_type: FilterType,
        mask_bytes: &[u8],
        pattern_bytes: &[u8],
        fc_bytes: &[u8],
    ) -> (r: PTResult<M2Request>)
        requires
            mask_bytes@.len() <= u32::MAX,
            pattern_bytes@.len() <= u32::MAX,
            fc_bytes@.len() <= u32::MAX,
        ensures
            match first_free(self@.filters) {
                None => r matches Err(e) && e == PassthruError::ERR_EXCEEDED_LIMIT,
                Some(i) => r matches Ok(q) && is_request(
                    q,
                    MsgType::SetChannelFilter,
                    filter_payload(
                        self@.id,
                        i as u32,
                        filter_type,
                        mask_bytes@,
                        pattern_bytes@,
                        fc_bytes@,
                    ),
                    250,
                ),
            },
    {
        let free_id: usize = match self.find_free_filter() {
            Some(i) => i,
            None => {
                return Err(PassthruError::ERR_EXCEEDED_LIMIT);
            },
        };
        let mut dst: Vec<u8> = Vec::new();
        write_u32_le(&mut dst, self.id);
        write_u32_le(&mut dst, free_id as u32);
        write_u32_le(&mut dst, filter_type.to_raw());
        write_u32_le(&mut dst, mask_bytes.len() as u32);
        write_u32_le(&mut dst, pattern_bytes.len() as u32);
        write_u32_le(&mut dst, fc_bytes.len() as u32);
        append_bytes(&mut dst, mask_bytes);
        append_bytes(&mut dst, pattern_bytes);
        append_bytes(&mut dst, fc_bytes);
        let msg = CommMsg::new_with_args(MsgType::SetChannelFilter, dst.as_slice());
        Ok(M2Request { msg, require_response: true, timeout_ms: SLOW_CMD_TIMEOUT_MS })
    }

    /// Adds a filter once the device has answered the request to set it, and
    /// returns its index. The device's description of a refusal becomes the last
    /// error.
    pub fn add_filter(&mut self, reply: PTResult<M2Resp>, last_error: &mut LastError) -> (r:
        PTResult<u32>)
        requires
            old(self).wf(),
        ensures
            final(self).wf(),
            (final(self)@, r) == old(self)@.add_filter(device_status(reply)),
            final(last_error)@ == if first_free(old(self)@.filters) is None {
                old(last_error)@
            } else {
                error_text_after(old(last_error)@, reply)
            },
    {
        let free_id: usize = match self.find_free_filter() {
            Some(i) => i,
            None => {
                return Err(PassthruError::ERR_EXCEEDED_LIMIT);
            },
        };
        match settle(reply, last_error) {
            Ok(_) => {
                self.filters[free_id] = 1;
                assert(self@.filters =~= old(self)@.filters.update(free_id as int, true));
                Ok(free_id as u32)
            },
            Err(status) => Err(status),
        }
    }

    /// The request that asks the device to remove a filter. An index whose filter
    /// is not in use is refused with `ERR_INVALID_MSG_ID`.
    pub fn remove_filter_request(&self, id: usize) -> (r: PTResult<M2Request>)
        ensures
            if self@.filter_in_use(id as int) {
                r matches Ok(q) && is_request(
                    q,
                    MsgType::RemoveChannelFilter,
                    pair_payload(self@.id, id as u32),
                    100,
                )
            } else {
                r matches Err(e) && e == PassthruError::ERR_INVALID_MSG_ID
            },
    {
        if id >= MAX_FILTERS_PER_CHANNEL || self.filters[id] == 0 {
            return Err(PassthruError::ERR_INVALID_MSG_ID);
        }
        let mut dst: Vec<u8> = Vec::new();
        write_u32_le(&mut dst, self.id);
        write_u32_le(&mut dst, id as u32);
        let msg = CommMsg::new_with_args(MsgType::RemoveChannelFilter, dst.as_slice());
        Ok(M2Request { msg, require_response: true, timeout_ms: CMD_TIMEOUT_MS })
    }

    /// Removes a filter once the device has answered the request to remove it.
    /// The device's description of a refusal becomes the last error.
    pub fn remove_filter(&mut self, id: usize, reply: PTResult<M2Resp>, last_error: &mut LastError)
        -> (r: PTResult<()>)
        requires
            old(self).wf(),
        ensures
            final(self).wf(),
            (final(self)@, r) == old(self)@.remove_filter(id as int, device_status(reply)),
            final(last_error)@ == if old(self)@.filter_in_use(id as int) {
                error_text_after(old(last_error)@, reply)
            } else {
                old(last_error)@
            },
    {
        if id >= MAX_FILTERS_PER_CHANNEL || self.filters[id] == 0 {
            return Err(PassthruError::ERR_INVALID_MSG_ID);
        }
        match settle(reply, last_error) {
            Ok(_) => {
                self.filters[id] = 0;
                assert(self@.filters =~= old(self)@.filters.update(id as int, false));
                Ok(())
            },
            Err(status) => Err(status),
        }
    }

    /// The request that asks the device to close this channel.
    pub fn destroy_request(&self) -> (r: M2Request)
        ensures
            is_request(r, MsgType::CloseChannel, u32_le_bytes(self@.id), 250),
    {
        let mut dst: Vec<u8> = Vec::new();
        write_u32_le(&mut dst, self.id);
        let msg = CommMsg::new_with_args(MsgType::CloseChannel, dst.as_slice());
        M2Request { msg, require_response: true, timeout_ms: SLOW_CMD_TIMEOUT_MS }
    }

    /// Tells what the device made of the request to close this channel. The
    /// device's description of a refusal becomes the last error.
    pub fn destroy(&self, reply: PTResult<M2Resp>, last_error: &mut LastError) -> (r: PTResult<()>)
        ensures
            match device_status(reply) {
                Ok(_) => r is Ok,
                Err(e) => r == PTResult::<()>::Err(e),
            },
            final(last_error)@ == error_text_after(old(last_error)@, reply),
    {
        match settle(reply, last_error) {
            Ok(_) => Ok(()),
            Err(status) => Err(status),
        }
    }

    /// The request that hands a message to the device for transmission. A message
    /// of another protocol than the channel's is refused with
    /// `ERR_MSG_PROTOCOL_ID`, one that claims more bytes than a message holds with
    /// `ERR_INVALID_MSG`. With `require_response` the reply is awaited for 100 ms;
    /// without it the request is sent and forgotten.
    pub fn transmit_request(&self, ptmsg: &PASSTHRU_MSG, require_response: bool) -> (r: PTResult<
        M2Request,
    >)
        ensures
            match self@.transmit_refusal(*ptmsg) {
                Some(refusal) => r matches Err(e) && e == refusal,
                None => {
                    &&& r matches Ok(q)
                    &&& q.msg@ == (Frame {
                        id: 0,
                        kind: MsgType::TransmitChannelData,
                        payload: clipped(
                            transmit_payload(self@.id, ptmsg.tx_flags, ptmsg.payload()),
                        ),
                    })
                    &&& q.msg.wf()
                    &&& q.require_response == require_response
                    &&& q.timeout_ms == 100
                },
            },
    {
        if ptmsg.protocol_id != self.protocol.to_raw() {
            return Err(PassthruError::ERR_MSG_PROTOCOL_ID);
        }
        if ptmsg.data_size > 4128 {
            return Err(PassthruError::ERR_INVALID_MSG);
        }
        let mut dst: Vec<u8> = Vec::new();
        write_u32_le(&mut dst, self.id);
        write_u32_le(&mut dst, ptmsg.tx_flags);
        let data = ptmsg.payload_bytes();
        append_bytes(&mut dst, data.as_slice());
        let msg = CommMsg::new_with_args(MsgType::TransmitChannelData, dst.as_slice());
        Ok(M2Request { msg, require_response, timeout_ms: CMD_TIMEOUT_MS })
    }

    /// Tells what came of handing a message to the device. A message that
    /// `transmit_request` refuses fails in the same way whatever the device says.
    /// The device's description of a refusal becomes the last error.
    pub fn transmit_data(
        &self,
        ptmsg: &PASSTHRU_MSG,
        reply: PTResult<M2Resp>,
        last_error: &mut LastError,
    ) -> (r: PTResult<()>)
        ensures
            match self@.transmit_refusal(*ptmsg) {
                Some(refusal) => {
                    &&& r == PTResult::<()>::Err(refusal)
                    &&& final(last_error)@ == old(last_error)@
                },
                None => {
                    &&& match device_status(reply) {
                        Ok(_) => r is Ok,
                        Err(e) => r == PTResult::<()>::Err(e),
                    }
                    &&& final(last_error)@ == error_text_after(old(last_error)@, reply)
                },
            },
    {
        if ptmsg.protocol_id != self.protocol.to_raw() {
            return Err(PassthruError::ERR_MSG_PROTOCOL_ID);
        }
        if ptmsg.data_size > 4128 {
            return Err(PassthruError::ERR_INVALID_MSG);
        }
        match settle(reply, last_error) {
            Ok(_) => Ok(()),
            Err(status) => Err(status),
        }
    }

    /// Takes the oldest buffered message off the receive queue.
    pub fn pop_rx_queue(&mut self) -> (r: Option<PASSTHRU_MSG>)
        requires
            old(self).wf(),
        ensures
            final(self).wf(),
            old(self)@.rx.len() == 0 ==> r is None && final(self)@ == old(self)@,
            old(self)@.rx.len() > 0 ==> r == Some(old(self)@.rx[0]) && final(self)@ == (
            ChannelView { rx: old(self)@.rx.subrange(1, old(self)@.rx.len() as int), ..old(self)@ }),
    {
        self.rx_data.pop_front()
    }

    /// The number of buffered messages.
    pub fn rx_available(&self) -> (r: usize)
        ensures
            r == self@.rx.len(),
    {
        self.rx_data.len()
    }

    /// Buffers a frame of received data that arrived `now_micros` microseconds
    /// after the epoch, and tells whether it was kept: with 100 messages waiting
    /// it is dropped.
    pub fn on_receive_data(&mut self, rx_status: u32, data: &[u8], now_micros: u128) -> (kept:
        bool)
        requires
            old(self).wf(),
            data@.len() <= 4128,
        ensures
            final(self).wf(),
            kept == (old(self)@.rx.len() < 100),
            kept ==> is_received(
                final(self)@.rx.last(),
                old(self)@.protocol,
                rx_status,
                data@,
                now_micros,
            ),
            exists|m: PASSTHRU_MSG| final(self)@ == old(self)@.receive(m),
    {
        if self.rx_data.len() < MAX_QUEUE_MSGS {
            let mut msg = PASSTHRU_MSG::default();
            msg.data_size = data.len() as u32;
            msg.rx_status = rx_status;
            msg.protocol_id = self.protocol.to_raw();
            let mut i: usize = 0;
            while i < data.len()
                invariant
                    i <= data@.len() <= 4128,
                    forall|j: int| 0 <= j < i ==> msg.data@[j] == data@[j],
                    forall|j: int| i <= j < 4128 ==> msg.data@[j] == 0,
                    msg.data_size == data@.len(),
                    msg.rx_status == rx_status,
                    msg.protocol_id == self.protocol.raw(),
                    msg.tx_flags == 0,
                    msg.extra_data_size == 0,
                decreases data@.len() - i,
            {
                msg.data[i] = data[i];
                i += 1;
            }
            msg.timestamp = (now_micros % 0x1_0000_0000) as u32;
            assert(msg.payload() =~= data@);
            self.rx_data.push_back(msg);
            assert(self@ == old(self)@.receive(msg));
            true
        } else {
            assert(self@ == old(self)@.receive(old(self)@.rx[0]));
            false
        }
    }

    /// Runs an IOCTL that needs nothing but the channel: clearing the transmit or
    /// the receive queue. Any other is refused with `ERR_FAILED`.
    pub fn ioctl(&mut self, ioctl_id: IoctlID) -> (r: PTResult<()>)
        requires
            old(self).wf(),
        ensures
            final(self).wf(),
            match ioctl_id {
                IoctlID::CLEAR_TX_BUFFER => r is Ok && final(self)@ == (ChannelView {
                    tx: Seq::empty(),
                    ..old(self)@
                }),
                IoctlID::CLEAR_RX_BUFFER => r is Ok && final(self)@ == (ChannelView {
                    rx: Seq::empty(),
                    ..old(self)@
                }),
                _ => r == PTResult::<()>::Err(PassthruError::ERR_FAILED) && final(self)@ == old(
                    self,
                )@,
            },
    {
        match ioctl_id {
            IoctlID::CLEAR_TX_BUFFER => {
                self.tx_data.clear();
                Ok(())
            },
            IoctlID::CLEAR_RX_BUFFER => {
                self.rx_data.clear();
                Ok(())
            },
            _ => Err(PassthruError::ERR_FAILED),
        }
    }

    /// Sets a configuration parameter of the channel. No parameter can be set yet:
    /// every request is refused with `ERR_NOT_SUPPORTED`.
    pub fn ioctl_set_config(&mut self, cfg: &SConfig) -> (r: PTResult<()>)
        ensures
            r == PTResult::<()>::Err(PassthruError::ERR_NOT_SUPPORTED),
            *final(self) == *old(self),
    {
        Err(PassthruError::ERR_NOT_SUPPORTED)
    }

    /// Reads a configuration parameter of the channel into `cfg`. No parameter
    /// can be read yet: every request is refused with `ERR_NOT_SUPPORTED`.
    pub fn ioctl_get_config(&self, cfg: &mut SConfig) -> (r: PTResult<()>)
        ensures
            r == PTResult::<()>::Err(PassthruError::ERR_NOT_SUPPORTED),
            *final(cfg) == *old(cfg),
    {
        Err(PassthruError::ERR_NOT_SUPPORTED)
    }
}

/// What the registry is: for each of the four family numbers, the channel in
/// its slot, if there is one.
pub type Registry = Seq<Option<ChannelView>>;

/// The channel with the given id: none where the id names no family or the
/// family's slot is empty.
pub open spec fn channel_at(reg: Registry, channel_id: u32) -> Option<ChannelView> {
    if channel_id < 4 {
        reg[channel_id as int]
    } else {
        None
    }
}

/// Opening a channel: an occupied slot fails with `ERR_CHANNEL_IN_USE` whatever
/// the device says; otherwise the channel takes the slot of its protocol's family
/// when the device agrees, and the slot stays empty when it does not.
pub open spec fn registry_create(
    reg: Registry,
    protocol: Protocol,
    baud_rate: u32,
    flags: u32,
    status: PTResult<Seq<u8>>,
) -> (Registry, PTResult<u32>) {
    let id = ChannelID::family(protocol).raw();
    if reg[id as int] is Some {
        (reg, Err(PassthruError::ERR_CHANNEL_IN_USE))
    } else {
        match status {
            Ok(_) => (
                reg.update(id as int, Some(ChannelView::opened(id, protocol, baud_rate, flags))),
                Ok(id),
            ),
            Err(e) => (reg, Err(e)),
        }
    }
}

/// The ids of the occupied slots, in rising order.
pub open spec fn occupied(reg: Registry) -> Seq<u32> {
    (if reg[0] is Some {
        seq![0u32]
    } else {
        seq![]
    }) + (if reg[1] is Some {
        seq![1u32]
    } else {
        seq![]
    }) + (if reg[2] is Some {
        seq![2u32]
    } else {
        seq![]
    }) + (if reg[3] is Some {
        seq![3u32]
    } else {
        seq![]
    })
}

/// The registry with every slot empty.
pub open spec fn empty_registry() -> Registry {
    Seq::new(4, |i: int| None::<ChannelView>)
}

/// Of two channels whose protocols belong to one family only the first can be
/// opened: once it is open, opening the second fails with `ERR_CHANNEL_IN_USE`
/// whatever the device says.
pub proof fn lemma_channel_exclusive(
    reg: Registry,
    first: Protocol,
    first_baud: u32,
    first_flags: u32,
    first_status: PTResult<Seq<u8>>,
    second: Protocol,
    second_baud: u32,
    second_flags: u32,
    second_status: PTResult<Seq<u8>>,
)
    requires
        reg.len() == 4,
        ChannelID::family(first) == ChannelID::family(second),
        registry_create(reg, first, first_baud, first_flags, first_status).1 is Ok,
    ensures
        registry_create(
            registry_create(reg, first, first_baud, first_flags, first_status).0,
            second,
            second_baud,
            second_flags,
            second_status,
        ) == (
            registry_create(reg, first, first_baud, first_flags, first_status).0,
            PTResult::<u32>::Err(PassthruError::ERR_CHANNEL_IN_USE),
        ),
{
}

/// What the worker's hand-over of received data came to.
#[derive(Debug, Copy, Clone, PartialEq, Eq, Structural)]
pub enum RxOutcome {
    /// The message joined the channel's receive queue.
    Buffered,
    /// The queue was full and the message was dropped.
    Dropped,
    /// No channel with that id is open; the message was dropped.
    NoChannel,
}

/// The registry of channels: one slot for each bus family.
#[derive(Debug, Clone)]
pub struct ChannelComm {
    can: Option<Channel>,
    kline: Option<Channel>,
    j1850: Option<Channel>,
    sci: Option<Channel>,
}

impl View for ChannelComm {
    type V = Registry;

    closed spec fn view(&self) -> Registry {
        Seq::new(4, |i: int| Self::shown(self.slot_at(i)))
    }
}

impl ChannelComm {
    /// The content of the slot with the given number.
    spec fn slot_at(&self, i: int) -> Option<Channel> {
        if i == 0 {
            self.can
        } else if i == 1 {
            self.kline
        } else if i == 2 {
            self.j1850
        } else {
            self.sci
        }
    }

    /// The view of what a slot holds.
    spec fn shown(slot: Option<Channel>) -> Option<ChannelView> {
        match slot {
            Some(c) => Some(c@),
            None => None,
        }
    }

    /// Holds of a slot whose channel, if there is one, is well formed and carries
    /// the slot's number.
    spec fn slot_wf(slot: Option<Channel>, i: int) -> bool {
        slot matches Some(c) ==> c.wf() && c.id == i && ChannelID::family(c.protocol).raw() == i
    }

    /// Every channel in the registry is well formed and sits in the slot of its
    /// protocol's family. Every registry made by `new` and changed only through
    /// its methods is well formed.
    pub closed spec fn wf(&self) -> bool {
        forall|i: int| 0 <= i < 4 ==> Self::slot_wf(#[trigger] self.slot_at(i), i)
    }

    /// What a well-formed registry's view shows of it: four slots, and in each
    /// occupied one a channel with the slot's number as its id, which is the
    /// number of its protocol's family, and with at most 100 messages buffered.
    pub proof fn lemma_wf_view(&self)
        requires
            self.wf(),
        ensures
            self@.len() == 4,
            forall|i: int|
                0 <= i < 4 ==> (#[trigger] self@[i] matches Some(c) ==> {
                    &&& c.id == i
                    &&& c.id == ChannelID::family(c.protocol).raw()
                    &&& c.rx.len() <= 100
                    &&& c.filters.len() == 10
                }),
    {
    }

    /// A registry with every slot empty.
    pub fn new() -> (r: Self)
        ensures
            r.wf(),
            r@ == empty_registry(),
    {
        let r = ChannelComm { can: None, kline: None, j1850: None, sci: None };
        r
    }

    /// The slot of a family.
    fn slot(&self, id: ChannelID) -> (r: &Option<Channel>)
        ensures
            *r == self.slot_at(id.raw() as int),
    {
        match id {
            ChannelID::Can => &self.can,
            ChannelID::Kline => &self.kline,
            ChannelID::J1850 => &self.j1850,
            ChannelID::Sci => &self.sci,
        }
    }

    /// The slot of a family, to be changed.
    fn slot_mut(&mut self, id: ChannelID) -> (r: &mut Option<Channel>)
        ensures
            *r == old(self).slot_at(id.raw() as int),
            final(self).slot_at(id.raw() as int) == *final(r),
            forall|i: int|
                0 <= i < 4 && i != id.raw() ==> final(self).slot_at(i) == old(self).slot_at(i),
    {
        match id {
            ChannelID::Can => &mut self.can,
            ChannelID::Kline => &mut self.kline,
            ChannelID::J1850 => &mut self.j1850,
            ChannelID::Sci => &mut self.sci,
        }
    }

    /// The request that asks the device to open a channel for `protocol`. A
    /// family whose slot is occupied is refused with `ERR_CHANNEL_IN_USE`.
    pub fn create_channel_request(&self, protocol: Protocol, baud_rate: u32, flags: u32) -> (r:
        PTResult<M2Request>)
        ensures
            if self@[ChannelID::family(protocol).raw() as int] is Some {
                r matches Err(e) && e == PassthruError::ERR_CHANNEL_IN_USE
            } else {
                r matches Ok(q) && is_request(
                    q,
                    MsgType::OpenChannel,
                    open_payload(ChannelID::family(protocol).raw(), protocol, baud_rate, flags),
                    100,
                )
            },
    {
        let protocol_id = ChannelID::from_protocol(protocol);
        if self.slot(protocol_id).is_some() {
            return Err(PassthruError::ERR_CHANNEL_IN_USE);
        }
        Ok(Channel::open_request(protocol_id.to_raw(), protocol, baud_rate, flags))
    }

    /// Opens a channel once the device has answered the request to open it, and
    /// returns its id. The device's description of a refusal becomes the last
    /// error.
    pub fn create_channel(
        &mut self,
        protocol: Protocol,
        baud_rate: u32,
        flags: u32,
        reply: PTResult<M2Resp>,
        last_error: &mut LastError,
    ) -> (r: PTResult<u32>)
        requires
            old(self).wf(),
        ensures
            final(self).wf(),
            (final(self)@, r) == registry_create(
                old(self)@,
                protocol,
                baud_rate,
                flags,
                device_status(reply),
            ),
            final(last_error)@ == if old(self)@[ChannelID::family(protocol).raw() as int] is Some {
                old(last_error)@
            } else {
                error_text_after(old(last_error)@, reply)
            },
    {
        let protocol_id = ChannelID::from_protocol(protocol);
        let id: u32 = protocol_id.to_raw();
        if self.slot(protocol_id).is_some() {
            return Err(PassthruError::ERR_CHANNEL_IN_USE);
        }
        match Channel::new(id, protocol, baud_rate, flags, reply, last_error) {
            Ok(chan) => {
                let slot = self.slot_mut(protocol_id);
                *slot = Some(chan);
                Ok(id)
            },
            Err(e) => Err(e),
        }
    }

    /// Takes a channel out of the registry, to be closed. An id that names no open
    /// channel is refused with `ERR_INVALID_CHANNEL_ID`. The slot is empty from
    /// here on, whatever the device will say to the request to close.
    pub fn destroy_channel(&mut self, channel_id: u32) -> (r: PTResult<Channel>)
        requires
            old(self).wf(),
        ensures
            final(self).wf(),
            match channel_at(old(self)@, channel_id) {
                None => {
                    &&& r matches Err(e)
                    &&& e == PassthruError::ERR_INVALID_CHANNEL_ID
                    &&& final(self)@ == old(self)@
                },
                Some(c) => {
                    &&& r matches Ok(chan)
                    &&& chan@ == c
                    &&& chan.wf()
                    &&& final(self)@ == old(self)@.update(channel_id as int, None)
                },
            },
    {
        let id = match ChannelID::from_u32(channel_id) {
            Ok(id) => id,
            Err(e) => {
                return Err(e);
            },
        };
        let slot = self.slot_mut(id);
        let taken = slot.take();
        match taken {
            Some(c) => {
                Ok(c)
            },
            None => {
                Err(PassthruError::ERR_INVALID_CHANNEL_ID)
            },
        }
    }

    /// Empties every slot, and returns the requests that ask the device to close
    /// the channels that were open, in the order of their ids.
    pub fn force_destroy_all_channels(&mut self) -> (r: Vec<M2Request>)
        requires
            old(self).wf(),
        ensures
            final(self).wf(),
            final(self)@ == empty_registry(),
            r@.len() == occupied(old(self)@).len(),
            forall|k: int|
                0 <= k < r@.len() ==> is_request(
                    #[trigger] r@[k],
                    MsgType::CloseChannel,
                    u32_le_bytes(occupied(old(self)@)[k]),
                    250,
                ),
    {
        let mut requests: Vec<M2Request> = Vec::new();
        if let Some(c) = self.can.take() {
            requests.push(c.destroy_request());
        }
        if let Some(c) = self.kline.take() {
            requests.push(c.destroy_request());
        }
        if let Some(c) = self.j1850.take() {
            requests.push(c.destroy_request());
        }
        if let Some(c) = self.sci.take() {
            requests.push(c.destroy_request());
        }
        requests
    }

    /// The request that asks the device to set a filter on a channel. An id that
    /// names no open channel is refused with `ERR_INVALID_CHANNEL_ID`, a full
    /// filter table with `ERR_EXCEEDED_LIMIT`.
    pub fn create_channel_filter_request(
        &self,
        channel_id: u32,
        filter_type: FilterType,
        mask_bytes: &[u8],
        pattern_bytes: &[u8],
        fc_bytes: &[u8],
    ) -> (r: PTResult<M2Request>)
        requires
            self.wf(),
            mask_bytes@.len() <= u32::MAX,
            pattern_bytes@.len() <= u32::MAX,
            fc_bytes@.len() <= u32::MAX,
        ensures
            match channel_at(self@, channel_id) {
                None => r matches Err(e) && e == PassthruError::ERR_INVALID_CHANNEL_ID,
                Some(c) => match first_free(c.filters) {
                    None => r matches Err(e) && e == PassthruError::ERR_EXCEEDED_LIMIT,
                    Some(i) => r matches Ok(q) && is_request(
                        q,
                        MsgType::SetChannelFilter,
                        filter_payload(
                            channel_id,
                            i as u32,
                            filter_type,
                            mask_bytes@,
                            pattern_bytes@,
                            fc_bytes@,
                        ),
                        250,
                    ),
                },
            },
    {
        let id = match ChannelID::from_u32(channel_id) {
            Ok(id) => id,
            Err(e) => {
                return Err(e);
            },
        };
        match self.slot(id) {
            Some(c) => c.add_filter_request(filter_type, mask_bytes, pattern_bytes, fc_bytes),
            None => Err(PassthruError::ERR_INVALID_CHANNEL_ID),
        }
    }

    /// Adds a filter to a channel once the device has answered the request to set
    /// it, and returns its index. An id that names no open channel fails with
    /// `ERR_INVALID_CHANNEL_ID` whatever the device says.
    pub fn create_channel_filter(
        &mut self,
        channel_id: u32,
        reply: PTResult<M2Resp>,
        last_error: &mut LastError,
    ) -> (r: PTResult<u32>)
        requires
            old(self).wf(),
        ensures
            final(self).wf(),
            match channel_at(old(self)@, channel_id) {
                None => {
                    &&& r == PTResult::<u32>::Err(PassthruError::ERR_INVALID_CHANNEL_ID)
                    &&& final(self)@ == old(self)@
                    &&& final(last_error)@ == old(last_error)@
                },
                Some(c) => {
                    &&& r == c.add_filter(device_status(reply)).1
                    &&& final(self)@ == old(self)@.update(
                        channel_id as int,
                        Some(c.add_filter(device_status(reply)).0),
                    )
                    &&& final(last_error)@ == if first_free(c.filters) is None {
                        old(last_error)@
                    } else {
                        error_text_after(old(last_error)@, reply)
                    }
                },
            },
    {
        let id = match ChannelID::from_u32(channel_id) {
            Ok(id) => id,
            Err(e) => {
                return Err(e);
            },
        };
        let slot = self.slot_mut(id);
        let r = match slot {
            Some(c) => c.add_filter(reply, last_error),
            None => Err(PassthruError::ERR_INVALID_CHANNEL_ID),
        };
        r
    }

    /// The request that asks the device to remove a filter of a channel. An id
    /// that names no open channel is refused with `ERR_INVALID_CHANNEL_ID`, an
    /// index whose filter is not in use with `ERR_INVALID_MSG_ID`.
    pub fn remove_filter_request(&self, channel_id: u32, filter_id: u32) -> (r: PTResult<
        M2Request,
    >)
        requires
            self.wf(),
        ensures
            match channel_at(self@, channel_id) {
                None => r matches Err(e) && e == PassthruError::ERR_INVALID_CHANNEL_ID,
                Some(c) => if c.filter_in_use(filter_id as int) {
                    r matches Ok(q) && is_request(
                        q,
                        MsgType::RemoveChannelFilter,
                        pair_payload(channel_id, filter_id),
                        100,
                    )
                } else {
                    r matches Err(e) && e == PassthruError::ERR_INVALID_MSG_ID
                },
            },
    {
        let id = match ChannelID::from_u32(channel_id) {
            Ok(id) => id,
            Err(e) => {
                return Err(e);
            },
        };
        match self.slot(id) {
            Some(c) => {
                if filter_id >= 10 {
                    return Err(PassthruError::ERR_INVALID_MSG_ID);
                }
                c.remove_filter_request(filter_id as usize)
            },
            None => Err(PassthruError::ERR_INVALID_CHANNEL_ID),
        }
    }

    /// Removes a filter of a channel once the device has answered the request to
    /// remove it. An id that names no open channel fails with
    /// `ERR_INVALID_CHANNEL_ID` whatever the device says.
    pub fn remove_filter(
        &mut self,
        channel_id: u32,
        filter_id: u32,
        reply: PTResult<M2Resp>,
        last_error: &mut LastError,
    ) -> (r: PTResult<()>)
        requires
            old(self).wf(),
        ensures
            final(self).wf(),
            match channel_at(old(self)@, channel_id) {
                None => {
                    &&& r == PTResult::<()>::Err(PassthruError::ERR_INVALID_CHANNEL_ID)
                    &&& final(self)@ == old(self)@
                    &&& final(last_error)@ == old(last_error)@
                },
                Some(c) => {
                    &&& r == c.remove_filter(filter_id as int, device_status(reply)).1
                    &&& final(self)@ == old(self)@.update(
                        channel_id as int,
                        Some(c.remove_filter(filter_id as int, device_status(reply)).0),
                    )
                    &&& final(last_error)@ == if c.filter_in_use(filter_id as int) {
                        error_text_after(old(last_error)@, reply)
                    } else {
                        old(last_error)@
                    }
                },
            },
    {
        let id = match ChannelID::from_u32(channel_id) {
            Ok(id) => id,
            Err(e) => {
                return Err(e);
            },
        };
        let slot = self.slot_mut(id);
        let r = match slot {
            Some(c) => {
                if filter_id >= 10 {
                    Err(PassthruError::ERR_INVALID_MSG_ID)
                } else {
                    c.remove_filter(filter_id as usize, reply, last_error)
                }
            },
            None => Err(PassthruError::ERR_INVALID_CHANNEL_ID),
        };
        r
    }

    /// The request that hands a message to the device for transmission on a
    /// channel. An id that names no open channel is refused with
    /// `ERR_INVALID_CHANNEL_ID`, a message of another protocol than the channel's
    /// with `ERR_MSG_PROTOCOL_ID`, one that claims more bytes than a message holds
    /// with `ERR_INVALID_MSG`.
    pub fn write_channel_data_request(
        &self,
        channel_id: u32,
        msg: &PASSTHRU_MSG,
        require_response: bool,
    ) -> (r: PTResult<M2Request>)
        requires
            self.wf(),
        ensures
            match channel_at(self@, channel_id) {
                None => r matches Err(e) && e == PassthruError::ERR_INVALID_CHANNEL_ID,
                Some(c) => match c.transmit_refusal(*msg) {
                    Some(refusal) => r matches Err(e) && e == refusal,
                    None => {
                        &&& r matches Ok(q)
                        &&& q.msg@ == (Frame {
                            id: 0,
                            kind: MsgType::TransmitChannelData,
                            payload: clipped(
                                transmit_payload(channel_id, msg.tx_flags, msg.payload()),
                            ),
                        })
                        &&& q.msg.wf()
                        &&& q.require_response == require_response
                        &&& q.timeout_ms == 100
                    },
                },
            },
    {
        let id = match ChannelID::from_u32(channel_id) {
            Ok(id) => id,
            Err(e) => {
                return Err(e);
            },
        };
        match self.slot(id) {
            Some(c) => c.transmit_request(msg, require_response),
            None => Err(PassthruError::ERR_INVALID_CHANNEL_ID),
        }
    }

    /// Tells what came of handing a message to the device for transmission on a
    /// channel. What `write_channel_data_request` refuses fails in the same way
    /// whatever the device says.
    pub fn write_channel_data(
        &self,
        channel_id: u32,
        msg: &PASSTHRU_MSG,
        reply: PTResult<M2Resp>,
        last_error: &mut LastError,
    ) -> (r: PTResult<()>)
        ensures
            match channel_at(self@, channel_id) {
                None => {
                    &&& r == PTResult::<()>::Err(PassthruError::ERR_INVALID_CHANNEL_ID)
                    &&& final(last_error)@ == old(last_error)@
                },
                Some(c) => match c.transmit_refusal(*msg) {
                    Some(refusal) => {
                        &&& r == PTResult::<()>::Err(refusal)
                        &&& final(last_error)@ == old(last_error)@
                    },
                    None => {
                        &&& match device_status(reply) {
                            Ok(_) => r is Ok,
                            Err(e) => r == PTResult::<()>::Err(e),
                        }
                        &&& final(last_error)@ == error_text_after(old(last_error)@, reply)
                    },
                },
            },
    {
        let id = match ChannelID::from_u32(channel_id) {
            Ok(id) => id,
            Err(e) => {
                return Err(e);
            },
        };
        match self.slot(id) {
            Some(c) => c.transmit_data(msg, reply, last_error),
            None => Err(PassthruError::ERR_INVALID_CHANNEL_ID),
        }
    }

    /// Takes the oldest buffered message off a channel's receive queue; `None`
    /// when nothing is buffered. An id that names no open channel is refused with
    /// `ERR_INVALID_CHANNEL_ID`.
    pub fn read_channel_data(&mut self, channel_id: u32) -> (r: PTResult<Option<PASSTHRU_MSG>>)
        requires
            old(self).wf(),
        ensures
            final(self).wf(),
            match channel_at(old(self)@, channel_id) {
                None => {
                    &&& r == PTResult::<Option<PASSTHRU_MSG>>::Err(
                        PassthruError::ERR_INVALID_CHANNEL_ID,
                    )
                    &&& final(self)@ == old(self)@
                },
                Some(c) => if c.rx.len() == 0 {
                    &&& r == PTResult::<Option<PASSTHRU_MSG>>::Ok(None)
                    &&& final(self)@ == old(self)@
                } else {
                    &&& r == PTResult::<Option<PASSTHRU_MSG>>::Ok(Some(c.rx[0]))
                    &&& final(self)@ == old(self)@.update(
                        channel_id as int,
                        Some(ChannelView { rx: c.rx.subrange(1, c.rx.len() as int), ..c }),
                    )
                },
            },
    {
        let id = match ChannelID::from_u32(channel_id) {
            Ok(id) => id,
            Err(e) => {
                return Err(e);
            },
        };
        let slot = self.slot_mut(id);
        let r = match slot {
            Some(c) => Ok(c.pop_rx_queue()),
            None => Err(PassthruError::ERR_INVALID_CHANNEL_ID),
        };
        r
    }

    /// Hands a frame of received data to the channel it names. The payload holds
    /// the channel id, the receive flags and then the data; `now_micros` is the
    /// arrival time in microseconds after the epoch. A payload too short for the
    /// two numbers, or with more data than a message holds, is refused with
    /// `ERR_FAILED`, an id above 3 with `ERR_INVALID_CHANNEL_ID`. Where the channel
    /// is not open, or its queue is full, the data is dropped and the outcome says
    /// so.
    pub fn receive_channel_data(&mut self, msg: &CommMsg, now_micros: u128) -> (r: PTResult<
        RxOutcome,
    >)
        requires
            old(self).wf(),
        ensures
            final(self).wf(),
            !(8 <= msg.args@.len() <= 4136) ==> {
                &&& r == PTResult::<RxOutcome>::Err(PassthruError::ERR_FAILED)
                &&& final(self)@ == old(self)@
            },
            8 <= msg.args@.len() <= 4136 ==> ({
                let channel_id = u32_le(msg.args@);
                let rx_flags = u32_le(msg.args@.subrange(4, 8));
                let data = msg.args@.subrange(8, msg.args@.len() as int);
                match ChannelID::parse(channel_id) {
                    None => {
                        &&& r == PTResult::<RxOutcome>::Err(PassthruError::ERR_INVALID_CHANNEL_ID)
                        &&& final(self)@ == old(self)@
                    },
                    Some(_) => match old(self)@[channel_id as int] {
                        None => {
                            &&& r == PTResult::<RxOutcome>::Ok(RxOutcome::NoChannel)
                            &&& final(self)@ == old(self)@
                        },
                        Some(c) => if c.rx.len() < 100 {
                            &&& r == PTResult::<RxOutcome>::Ok(RxOutcome::Buffered)
                            &&& exists|m: PASSTHRU_MSG|
                                is_received(m, c.protocol, rx_flags, data, now_micros)
                                    && final(self)@ == old(self)@.update(
                                    channel_id as int,
                                    Some(c.receive(m)),
                                )
                        } else {
                            &&& r == PTResult::<RxOutcome>::Ok(RxOutcome::Dropped)
                            &&& final(self)@ == old(self)@
                        },
                    },
                }
            }),
    {
        if msg.args.len() < 8 || msg.args.len() > 4136 {
            return Err(PassthruError::ERR_FAILED);
        }
        let channel_id: u32 = read_u32_le(msg.args.as_slice());
        let id = match ChannelID::from_u32(channel_id) {
            Ok(id) => id,
            Err(e) => {
                return Err(e);
            },
        };
        let rx_flags: u32 = read_u32_le(slice_subrange(msg.args.as_slice(), 4, 8));
        let data = slice_subrange(msg.args.as_slice(), 8, msg.args.len());
        let slot = self.slot_mut(id);
        let r = match slot {
            Some(c) => {
                if c.on_receive_data(rx_flags, data, now_micros) {
                    RxOutcome::Buffered
                } else {
                    RxOutcome::Dropped
                }
            },
            None => RxOutcome::NoChannel,
        };
        Ok(r)
    }

    /// Runs a buffer-clearing IOCTL on a channel and gives its status.
    fn clear_buffer(&mut self, channel_id: u32, ioctl_id: IoctlID) -> (r: PassthruError)
        requires
            old(self).wf(),
            ioctl_id == IoctlID::CLEAR_TX_BUFFER || ioctl_id == IoctlID::CLEAR_RX_BUFFER,
        ensures
            final(self).wf(),
            match channel_at(old(self)@, channel_id) {
                None => r == PassthruError::ERR_INVALID_CHANNEL_ID && final(self)@ == old(self)@,
                Some(c) => r == PassthruError::STATUS_NOERROR && final(self)@ == old(self)@.update(
                    channel_id as int,
                    Some(
                        if ioctl_id == IoctlID::CLEAR_TX_BUFFER {
                            ChannelView { tx: Seq::empty(), ..c }
                        } else {
                            ChannelView { rx: Seq::empty(), ..c }
                        },
                    ),
                ),
            },
    {
        let id = match ChannelID::from_u32(channel_id) {
            Ok(id) => id,
            Err(e) => {
                return e;
            },
        };
        let slot = self.slot_mut(id);
        let r = match slot {
            Some(c) => match c.ioctl(ioctl_id) {
                Ok(_) => PassthruError::STATUS_NOERROR,
                Err(e) => e,
            },
            None => PassthruError::ERR_INVALID_CHANNEL_ID,
        };
        r
    }

    /// Empties the transmit queue of a channel. An id that names no open channel
    /// gives `ERR_INVALID_CHANNEL_ID`.
    pub fn clear_tx_buffer(&mut self, channel_id: u32) -> (r: PassthruError)
        requires
            old(self).wf(),
        ensures
            final(self).wf(),
            match channel_at(old(self)@, channel_id) {
                None => r == PassthruError::ERR_INVALID_CHANNEL_ID && final(self)@ == old(self)@,
                Some(c) => r == PassthruError::STATUS_NOERROR && final(self)@ == old(self)@.update(
                    channel_id as int,
                    Some(ChannelView { tx: Seq::empty(), ..c }),
                ),
            },
    {
        self.clear_buffer(channel_id, IoctlID::CLEAR_TX_BUFFER)
    }

    /// Empties the receive queue of a channel. An id that names no open channel
    /// gives `ERR_INVALID_CHANNEL_ID`.
    pub fn clear_rx_buffer(&mut self, channel_id: u32) -> (r: PassthruError)
        requires
            old(self).wf(),
        ensures
            final(self).wf(),
            match channel_at(old(self)@, channel_id) {
                None => r == PassthruError::ERR_INVALID_CHANNEL_ID && final(self)@ == old(self)@,
                Some(c) => r == PassthruError::STATUS_NOERROR && final(self)@ == old(self)@.update(
                    channel_id as int,
                    Some(ChannelView { rx: Seq::empty(), ..c }),
                ),
            },
    {
        self.clear_buffer(channel_id, IoctlID::CLEAR_RX_BUFFER)
    }

    /// Sets a configuration parameter of a channel. An id that names no open
    /// channel is refused with `ERR_INVALID_CHANNEL_ID`; on an open channel no
    /// parameter can be set yet, and the request is refused with
    /// `ERR_NOT_SUPPORTED`.
    pub fn ioctl_set_cfg(&mut self, channel_id: u32, pname: IoctlParam, value: u32) -> (r:
        PTResult<()>)
        ensures
            *final(self) == *old(self),
            r == PTResult::<()>::Err(
                if channel_at(old(self)@, channel_id) is Some {
                    PassthruError::ERR_NOT_SUPPORTED
                } else {
                    PassthruError::ERR_INVALID_CHANNEL_ID
                },
            ),
    {
        let id = match ChannelID::from_u32(channel_id) {
            Ok(id) => id,
            Err(e) => {
                return Err(e);
            },
        };
        if self.slot(id).is_some() {
            Err(PassthruError::ERR_NOT_SUPPORTED)
        } else {
            Err(PassthruError::ERR_INVALID_CHANNEL_ID)
        }
    }

    /// Reads a configuration parameter of a channel. An id that names no open
    /// channel is refused with `ERR_INVALID_CHANNEL_ID`; on an open channel no
    /// parameter can be read yet, and the request is refused with
    /// `ERR_NOT_SUPPORTED`.
    pub fn ioctl_get_cfg(&self, channel_id: u32, pname: IoctlParam) -> (r: PTResult<u32>)
        ensures
            r == PTResult::<u32>::Err(
                if channel_at(self@, channel_id) is Some {
                    PassthruError::ERR_NOT_SUPPORTED
                } else {
                    PassthruError::ERR_INVALID_CHANNEL_ID
                },
            ),
    {
        let id = match ChannelID::from_u32(channel_id) {
            Ok(id) => id,
            Err(e) => {
                return Err(e);
            },
        };
        if self.slot(id).is_some() {
            Err(PassthruError::ERR_NOT_SUPPORTED)
        } else {
            Err(PassthruError::ERR_INVALID_CHANNEL_ID)
        }
    }
}

} // verus!
