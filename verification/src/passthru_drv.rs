//! The entry points of the API: argument checks, the one-device rule, the
//! description of the last failure, and the mapping of every outcome onto a
//! J2534 status code.
//!
//! A pointer that the caller may leave null is an `Option` here, and an output
//! pointer is an `Option<&mut _>`. As in the registry, an operation that needs
//! the device has a first half that checks and builds the request, and a second
//! half, under the operation's name, that takes the reply.

use crate::channels::{
    channel_at, device_status, empty_registry, error_text_after, filter_payload, first_free,
    is_request, occupied, open_payload, pair_payload, registry_create, settle, ChannelComm,
    ChannelID, ChannelView, Registry, SLOW_CMD_TIMEOUT_MS,
};
use crate::comm::{CommMsg, M2Request, M2Resp, MacchinaM2, MsgType, PTResult};
use crate::j2534_common::{FilterType, IoctlID, Parsable, PassthruError, Protocol, PASSTHRU_MSG};
use crate::text::{decimal, push_decimal, string_from_utf8};
use crate::wire::u32_le_bytes;
use vstd::prelude::*;
use vstd::slice::slice_to_vec;
use vstd::string::StringExecFns;
use vstd::string::StringSliceAdditionalSpecFns;
use vstd::utf8::{encode_utf8, valid_utf8};

verus! {

/// The version of the J2534 API that the driver speaks.
pub const API_VERSION: &'static str = "04.04";

/// The id that stands for the one device.
pub const DEVICE_ID: u32 = 0x1234;

/// The description of the last failure that needed more than a status code.
#[derive(Debug, Clone, PartialEq, Eq)]
pub struct LastError {
    pub text: String,
}

impl View for LastError {
    type V = Seq<char>;

    open spec fn view(&self) -> Seq<char> {
        self.text@
    }
}

impl LastError {
    /// No failure has been described yet.
    pub fn new() -> (r: Self)
        ensures
            r@ == Seq::<char>::empty(),
    {
        LastError { text: String::new() }
    }
}

/// Replaces the description of the last failure.
pub fn set_error_string(last_error: &mut LastError, input: String)
    ensures
        final(last_error)@ == input@,
{
    last_error.text = input;
}

/// Holds of bytes with a zero among them.
pub open spec fn has_nul(bytes: Seq<u8>) -> bool {
    exists|i: int| 0 <= i < bytes.len() && bytes[i] == 0
}

/// The number of bytes of a text that fit in a buffer of 80 before the
/// terminating zero.
pub open spec fn c_len(bytes: Seq<u8>) -> int {
    if bytes.len() <= 79 {
        bytes.len() as int
    } else {
        79
    }
}

/// A text as it is handed to the caller: cut after 79 bytes where it is longer,
/// and ended by a zero.
pub open spec fn c_string(bytes: Seq<u8>) -> Seq<u8> {
    bytes.subrange(0, c_len(bytes)).push(0u8)
}

/// What a buffer of 80 bytes holds after a text was copied into it: the text as
/// a C string, then what was there before.
pub open spec fn buffer_with(before: Seq<u8>, bytes: Seq<u8>) -> Seq<u8> {
    c_string(bytes) + before.subrange(c_len(bytes) + 1, 80)
}

/// Copies a text into a caller's buffer as a C string. A text with a zero byte
/// in it cannot be a C string: nothing is copied and the result is `false`.
pub fn copy_c_string(dst: &mut [u8; 80], src: &[u8]) -> (copied: bool)
    ensures
        copied == !has_nul(src@),
        final(dst)@ == if copied {
            buffer_with(old(dst)@, src@)
        } else {
            old(dst)@
        },
{
    let mut k: usize = 0;
    while k < src.len()
        invariant
            k <= src@.len(),
            forall|j: int| 0 <= j < k ==> src@[j] != 0,
        decreases src@.len() - k,
    {
        if src[k] == 0 {
            return false;
        }
        k += 1;
    }
    let n: usize = if src.len() <= 79 {
        src.len()
    } else {
        79
    };
    let mut i: usize = 0;
    while i < n
        invariant
            i <= n <= 79,
            n == c_len(src@),
            forall|j: int| 0 <= j < i ==> dst@[j] == src@[j],
            forall|j: int| i <= j < 80 ==> dst@[j] == old(dst)@[j],
        decreases n - i,
    {
        dst[i] = src[i];
        i += 1;
    }
    dst[n] = 0;
    true
}

/// The status of an attempt to open the device, before the port is touched: a
/// null output is refused with `ERR_NULL_PARAMETER`, a second device with
/// `ERR_DEVICE_IN_USE`, and without a port there is no device to connect to.
pub open spec fn open_refusal(
    present: bool,
    device_id_is_null: bool,
    port_known: bool,
) -> Option<PassthruError> {
    if device_id_is_null {
        Some(PassthruError::ERR_NULL_PARAMETER)
    } else if present {
        Some(PassthruError::ERR_DEVICE_IN_USE)
    } else if !port_known {
        Some(PassthruError::ERR_DEVICE_NOT_CONNECTED)
    } else {
        None
    }
}

/// Checks whether the device can be opened, and gives the path of the port to
/// open. `comm_port` is what the search for the port's path came to.
pub fn passthru_open_request(
    m2: &Option<MacchinaM2>,
    device_id_is_null: bool,
    comm_port: Option<String>,
    last_error: &mut LastError,
) -> (r: PTResult<String>)
    ensures
        match open_refusal(m2 is Some, device_id_is_null, comm_port is Some) {
            Some(e) => r matches Err(x) && x == e,
            None => r matches Ok(path) && path@ == comm_port->0@,
        },
        final(last_error)@ == if !device_id_is_null && m2 is None && comm_port is None {
            "COM Port open failed with error Cannot find COM-PORT attribute"@
        } else {
            old(last_error)@
        },
{
    if device_id_is_null {
        return Err(PassthruError::ERR_NULL_PARAMETER);
    }
    if m2.is_some() {
        return Err(PassthruError::ERR_DEVICE_IN_USE);
    }
    match comm_port {
        Some(path) => Ok(path),
        None => {
            set_error_string(
                last_error,
                "COM Port open failed with error Cannot find COM-PORT attribute".to_owned(),
            );
            Err(PassthruError::ERR_DEVICE_NOT_CONNECTED)
        },
    }
}

/// Opens the device once the port was tried. `opened` is the state of the new
/// link, or the description of why the port could not be opened. On success the
/// device takes the one slot and `device_id` gets the fixed id.
pub fn passthru_open(
    m2: &mut Option<MacchinaM2>,
    opened: Result<MacchinaM2, String>,
    device_id: Option<&mut u32>,
    last_error: &mut LastError,
) -> (r: PassthruError)
    ensures
        r == match open_refusal((*old(m2)) is Some, device_id is None, opened is Ok) {
            Some(e) => e,
            None => PassthruError::STATUS_NOERROR,
        },
        *final(m2) == if r == PassthruError::STATUS_NOERROR {
            Some(opened->Ok_0)
        } else {
            *old(m2)
        },
        device_id matches Some(p) ==> *final(p) == if r == PassthruError::STATUS_NOERROR {
            DEVICE_ID
        } else {
            *p
        },
        final(last_error)@ == if device_id is Some && (*old(m2)) is None && opened is Err {
            "COM Port open failed with error "@ + opened->Err_0@
        } else {
            old(last_error)@
        },
{
    let out = match device_id {
        Some(p) => p,
        None => {
            return PassthruError::ERR_NULL_PARAMETER;
        },
    };
    if m2.is_some() {
        return PassthruError::ERR_DEVICE_IN_USE;
    }
    match opened {
        Ok(dev) => {
            *m2 = Some(dev);
            *out = DEVICE_ID;
            PassthruError::STATUS_NOERROR
        },
        Err(text) => {
            let mut string = "COM Port open failed with error ".to_owned();
            string.append(text.as_str());
            set_error_string(last_error, string);
            PassthruError::ERR_DEVICE_NOT_CONNECTED
        },
    }
}

/// What closing the device leaves for the link to do.
#[derive(Debug, Clone, PartialEq, Eq)]
pub struct CloseActions {
    /// The requests that ask the device to close the channels that were open.
    pub close_requests: Vec<M2Request>,
    /// The frame that the worker sends last, where a worker is to be stopped.
    pub stop_frame: Option<CommMsg>,
}

/// What closing comes to: the status, whether a device is open afterwards, and
/// the registry afterwards. Another id than the device's is refused with
/// `ERR_INVALID_DEVICE_ID` and changes nothing. With the right id closing
/// succeeds whether a device was open or not.
pub open spec fn close_outcome(present: bool, reg: Registry, device_id: u32) -> (
    PassthruError,
    bool,
    Registry,
) {
    if device_id != DEVICE_ID {
        (PassthruError::ERR_INVALID_DEVICE_ID, present, reg)
    } else if !present {
        (PassthruError::STATUS_NOERROR, false, reg)
    } else {
        (PassthruError::STATUS_NOERROR, false, empty_registry())
    }
}

/// Closing is idempotent: after a close that succeeded, closing again succeeds
/// and changes nothing.
pub proof fn lemma_close_idempotent(present: bool, reg: Registry, device_id: u32)
    requires
        close_outcome(present, reg, device_id).0 == PassthruError::STATUS_NOERROR,
    ensures
        close_outcome(
            close_outcome(present, reg, device_id).1,
            close_outcome(present, reg, device_id).2,
            device_id,
        ) == (
            PassthruError::STATUS_NOERROR,
            close_outcome(present, reg, device_id).1,
            close_outcome(present, reg, device_id).2,
        ),
{
}

/// Closes the device: every channel leaves the registry, the worker is told to
/// stop and the device leaves its slot. What is left to do on the link, in this
/// order, is to send the requests that close the channels and then the frame
/// that stops the worker.
pub fn passthru_close(m2: &mut Option<MacchinaM2>, channels: &mut ChannelComm, device_id: u32) -> (r:
    (PassthruError, CloseActions))
    requires
        old(channels).wf(),
    ensures
        final(channels).wf(),
        (r.0, (*final(m2)) is Some, final(channels)@) == close_outcome(
            (*old(m2)) is Some,
            old(channels)@,
            device_id,
        ),
        device_id != DEVICE_ID ==> *final(m2) == *old(m2),
        if device_id == DEVICE_ID && (*old(m2)) is Some {
            &&& r.1.stop_frame matches Some(frame)
            &&& frame@ == MacchinaM2::stop_frame()
            &&& frame.wf()
            &&& r.1.close_requests@.len() == occupied(old(channels)@).len()
            &&& forall|k: int|
                0 <= k < r.1.close_requests@.len() ==> is_request(
                    #[trigger] r.1.close_requests@[k],
                    MsgType::CloseChannel,
                    u32_le_bytes(occupied(old(channels)@)[k]),
                    250,
                )
        } else {
            &&& r.1.stop_frame is None
            &&& r.1.close_requests@.len() == 0
        },
{
    if device_id != DEVICE_ID {
        return (
            PassthruError::ERR_INVALID_DEVICE_ID,
            CloseActions { close_requests: Vec::new(), stop_frame: None },
        );
    }
    match m2.take() {
        Some(mut dev) => {
            let close_requests = channels.force_destroy_all_channels();
            let stop_frame = dev.stop();
            (
                PassthruError::STATUS_NOERROR,
                CloseActions { close_requests, stop_frame: Some(stop_frame) },
            )
        },
        None => (
            PassthruError::STATUS_NOERROR,
            CloseActions { close_requests: Vec::new(), stop_frame: None },
        ),
    }
}

/// The description of a connect with another id than the device's.
pub open spec fn wrong_device_text(device_id: u32) -> Seq<char> {
    "Not M2s device ID. Expected "@ + decimal(DEVICE_ID as nat) + ", got "@ + decimal(
        device_id as nat,
    )
}

/// Why a connect is refused before the registry is asked, if it is: another id
/// than the device's counts as no device, a null output is refused with
/// `ERR_NULL_PARAMETER`, and a number that names no protocol with
/// `ERR_INVALID_PROTOCOL_ID`.
pub open spec fn connect_refusal(
    device_id: u32,
    protocol_id: u32,
    channel_id_is_null: bool,
) -> Option<PassthruError> {
    if device_id != DEVICE_ID {
        Some(PassthruError::ERR_DEVICE_NOT_CONNECTED)
    } else if channel_id_is_null {
        Some(PassthruError::ERR_NULL_PARAMETER)
    } else if <Protocol as Parsable>::parse(protocol_id) is None {
        Some(PassthruError::ERR_INVALID_PROTOCOL_ID)
    } else {
        None
    }
}

/// Checks the arguments of a connect and keeps the description of a wrong
/// device id as the last error.
fn check_connect(
    device_id: u32,
    protocol_id: u32,
    channel_id_is_null: bool,
    last_error: &mut LastError,
) -> (r: PTResult<Protocol>)
    ensures
        match connect_refusal(device_id, protocol_id, channel_id_is_null) {
            Some(e) => r == PTResult::<Protocol>::Err(e),
            None => r == PTResult::<Protocol>::Ok(<Protocol as Parsable>::parse(protocol_id)->0),
        },
        final(last_error)@ == if device_id != DEVICE_ID {
            wrong_device_text(device_id)
        } else {
            old(last_error)@
        },
{
    if device_id != DEVICE_ID {
        let mut string = "Not M2s device ID. Expected ".to_owned();
        push_decimal(&mut string, DEVICE_ID);
        string.append(", got ");
        push_decimal(&mut string, device_id);
        set_error_string(last_error, string);
        return Err(PassthruError::ERR_DEVICE_NOT_CONNECTED);
    }
    if channel_id_is_null {
        return Err(PassthruError::ERR_NULL_PARAMETER);
    }
    match Protocol::from_raw(protocol_id) {
        Some(protocol) => Ok(protocol),
        None => Err(PassthruError::ERR_INVALID_PROTOCOL_ID),
    }
}

/// The request that asks the device to open a channel, after the arguments of
/// the connect were checked.
pub fn passthru_connect_request(
    channels: &ChannelComm,
    device_id: u32,
    protocol_id: u32,
    flags: u32,
    baud_rate: u32,
    channel_id_is_null: bool,
    last_error: &mut LastError,
) -> (r: PTResult<M2Request>)
    ensures
        match connect_refusal(device_id, protocol_id, channel_id_is_null) {
            Some(e) => r matches Err(x) && x == e,
            None => {
                let protocol = <Protocol as Parsable>::parse(protocol_id)->0;
                if channels@[ChannelID::family(protocol).raw() as int] is Some {
                    r matches Err(x) && x == PassthruError::ERR_CHANNEL_IN_USE
                } else {
                    r matches Ok(q) && is_request(
                        q,
                        MsgType::OpenChannel,
                        open_payload(
                            ChannelID::family(protocol).raw(),
                            protocol,
                            baud_rate,
                            flags,
                        ),
                        100,
                    )
                }
            },
        },
        final(last_error)@ == if device_id != DEVICE_ID {
            wrong_device_text(device_id)
        } else {
            old(last_error)@
        },
{
    match check_connect(device_id, protocol_id, channel_id_is_null, last_error) {
        Ok(protocol) => channels.create_channel_request(protocol, baud_rate, flags),
        Err(e) => Err(e),
    }
}

/// Connects a channel once the device has answered the request to open it, and
/// stores the channel's id in `channel_id_ptr`. What `passthru_connect_request`
/// refuses fails in the same way whatever the device says.
pub fn passthru_connect(
    channels: &mut ChannelComm,
    device_id: u32,
    protocol_id: u32,
    flags: u32,
    baud_rate: u32,
    channel_id_ptr: Option<&mut u32>,
    reply: PTResult<M2Resp>,
    last_error: &mut LastError,
) -> (r: PassthruError)
    requires
        old(channels).wf(),
    ensures
        final(channels).wf(),
        match connect_refusal(device_id, protocol_id, channel_id_ptr is None) {
            Some(e) => {
                &&& r == e
                &&& final(channels)@ == old(channels)@
                &&& channel_id_ptr matches Some(p) ==> *final(p) == *p
                &&& final(last_error)@ == if device_id != DEVICE_ID {
                    wrong_device_text(device_id)
                } else {
                    old(last_error)@
                }
            },
            None => {
                let protocol = <Protocol as Parsable>::parse(protocol_id)->0;
                let created = registry_create(
                    old(channels)@,
                    protocol,
                    baud_rate,
                    flags,
                    device_status(reply),
                );
                &&& final(channels)@ == created.0
                &&& channel_id_ptr matches Some(p)
                &&& match created.1 {
                    Ok(id) => r == PassthruError::STATUS_NOERROR && *final(p) == id,
                    Err(e) => r == e && *final(p) == *p,
                }
                &&& final(last_error)@ == if old(channels)@[ChannelID::family(protocol).raw() as int] is Some {
                    old(last_error)@
                } else {
                    error_text_after(old(last_error)@, reply)
                }
            },
        },
{
    let protocol = match check_connect(device_id, protocol_id, channel_id_ptr.is_none(), last_error) {
        Ok(protocol) => protocol,
        Err(e) => {
            return e;
        },
    };
    match channels.create_channel(protocol, baud_rate, flags, reply, last_error) {
        Ok(chan_id) => {
            match channel_id_ptr {
                Some(p) => {
                    *p = chan_id;
                },
                None => {},
            }
            PassthruError::STATUS_NOERROR
        },
        Err(x) => x,
    }
}

/// Takes a channel out of the registry and gives the request that asks the
/// device to close it. An id that names no open channel is refused with
/// `ERR_INVALID_CHANNEL_ID`.
pub fn passthru_disconnect_request(channels: &mut ChannelComm, channel_id: u32) -> (r: PTResult<
    M2Request,
>)
    requires
        old(channels).wf(),
    ensures
        final(channels).wf(),
        match channel_at(old(channels)@, channel_id) {
            None => {
                &&& r matches Err(e)
                &&& e == PassthruError::ERR_INVALID_CHANNEL_ID
                &&& final(channels)@ == old(channels)@
            },
            Some(c) => {
                &&& r matches Ok(q)
                &&& is_request(q, MsgType::CloseChannel, u32_le_bytes(channel_id), 250)
                &&& final(channels)@ == old(channels)@.update(channel_id as int, None)
            },
        },
{
    proof {
        channels.lemma_wf_view();
    }
    match channels.destroy_channel(channel_id) {
        Ok(chan) => Ok(chan.destroy_request()),
        Err(e) => Err(e),
    }
}

/// Tells what the device made of the request to close a channel. The channel
/// has left the registry whatever the device says.
pub fn passthru_disconnect(reply: PTResult<M2Resp>, last_error: &mut LastError) -> (r:
    PassthruError)
    ensures
        r == match device_status(reply) {
            Ok(_) => PassthruError::STATUS_NOERROR,
            Err(e) => e,
        },
        final(last_error)@ == error_text_after(old(last_error)@, reply),
{
    match settle(reply, last_error) {
        Ok(_) => PassthruError::STATUS_NOERROR,
        Err(e) => e,
    }
}

/// Holds of an IOCTL that reads what its input pointer leads to.
pub open spec fn ioctl_needs_input(id: IoctlID) -> bool {
    match id {
        IoctlID::SET_CONFIG
        | IoctlID::GET_CONFIG
        | IoctlID::FIVE_BAUD_INIT
        | IoctlID::FAST_INIT
        | IoctlID::ADD_TO_FUNCT_MSG_LOOKUP_TABLE
        | IoctlID::DELETE_FROM_FUNCT_MSG_LOOKUP_TABLE => true,
        _ => false,
    }
}

/// Holds of an IOCTL that writes where its output pointer leads to.
pub open spec fn ioctl_needs_output(id: IoctlID) -> bool {
    match id {
        IoctlID::READ_VBATT
        | IoctlID::READ_PROG_VOLTAGE
        | IoctlID::FIVE_BAUD_INIT
        | IoctlID::FAST_INIT => true,
        _ => false,
    }
}

/// Checks the arguments of an IOCTL and tells which operation is asked for. A
/// number that names no operation is refused with `ERR_INVALID_IOCTL_ID`, a null
/// pointer that the operation needs with `ERR_NULL_PARAMETER`.
pub fn passthru_ioctl(ioctl_id: u32, input_is_null: bool, output_is_null: bool) -> (r: PTResult<
    IoctlID,
>)
    ensures
        match <IoctlID as Parsable>::parse(ioctl_id) {
            None => r == PTResult::<IoctlID>::Err(PassthruError::ERR_INVALID_IOCTL_ID),
            Some(id) => if (ioctl_needs_input(id) && input_is_null) || (ioctl_needs_output(id)
                && output_is_null) {
                r == PTResult::<IoctlID>::Err(PassthruError::ERR_NULL_PARAMETER)
            } else {
                r == PTResult::<IoctlID>::Ok(id)
            },
        },
{
    let ioctl_opt = match IoctlID::from_raw(ioctl_id) {
        Some(p) => p,
        None => {
            return Err(PassthruError::ERR_INVALID_IOCTL_ID);
        },
    };
    match ioctl_opt {
        IoctlID::READ_VBATT => {
            if output_is_null {
                return Err(PassthruError::ERR_NULL_PARAMETER);
            }
        },
        IoctlID::READ_PROG_VOLTAGE => {
            if output_is_null {
                return Err(PassthruError::ERR_NULL_PARAMETER);
            }
        },
        IoctlID::SET_CONFIG => {
            if input_is_null {
                return Err(PassthruError::ERR_NULL_PARAMETER);
            }
        },
        IoctlID::GET_CONFIG => {
            if input_is_null {
                return Err(PassthruError::ERR_NULL_PARAMETER);
            }
        },
        IoctlID::FIVE_BAUD_INIT => {
            if input_is_null {
                return Err(PassthruError::ERR_NULL_PARAMETER);
            }
            if output_is_null {
                return Err(PassthruError::ERR_NULL_PARAMETER);
            }
        },
        IoctlID::FAST_INIT => {
            if input_is_null {
                return Err(PassthruError::ERR_NULL_PARAMETER);
            }
            if output_is_null {
                return Err(PassthruError::ERR_NULL_PARAMETER);
            }
        },
        IoctlID::CLEAR_TX_BUFFER => {},
        IoctlID::CLEAR_RX_BUFFER => {},
        IoctlID::CLEAR_PERIODIC_MSGS => {},
        IoctlID::CLEAR_MSG_FILTERS => {},
        IoctlID::CLEAR_FUNCT_MSG_LOOKUP_TABLE => {},
        IoctlID::ADD_TO_FUNCT_MSG_LOOKUP_TABLE => {
            if input_is_null {
                return Err(PassthruError::ERR_NULL_PARAMETER);
            }
        },
        IoctlID::DELETE_FROM_FUNCT_MSG_LOOKUP_TABLE => {
            if input_is_null {
                return Err(PassthruError::ERR_NULL_PARAMETER);
            }
        },
    }
    Ok(ioctl_opt)
}

/// Recognises the kind of a filter from its number. A number that names no kind
/// is refused with `ERR_INVALID_MSG_ID`.
pub fn filter_type_from_raw(filter_type: u32) -> (r: PTResult<FilterType>)
    ensures
        match <FilterType as Parsable>::parse(filter_type) {
            Some(t) => r == PTResult::<FilterType>::Ok(t),
            None => r == PTResult::<FilterType>::Err(PassthruError::ERR_INVALID_MSG_ID),
        },
{
    match FilterType::from_raw(filter_type) {
        Some(t) => Ok(t),
        None => Err(PassthruError::ERR_INVALID_MSG_ID),
    }
}

/// The bytes of a filter message that stand for a null pointer or hold nothing.
pub open spec fn filter_bytes(msg: Option<PASSTHRU_MSG>) -> Seq<u8> {
    match msg {
        None => Seq::empty(),
        Some(m) => m.payload(),
    }
}

/// Why a filter is refused before the registry is asked, if it is: the mask and
/// the pattern must be there, and with a flow control filter the flow control
/// message too, or the filter is refused with `ERR_NULL_PARAMETER`; a message
/// that claims more bytes than it holds is refused with `ERR_INVALID_MSG`.
pub open spec fn filter_refusal(
    filter_type: FilterType,
    mask: Option<PASSTHRU_MSG>,
    pattern: Option<PASSTHRU_MSG>,
    fc: Option<PASSTHRU_MSG>,
    msg_id_is_null: bool,
) -> Option<PassthruError> {
    if mask is None || pattern is None || msg_id_is_null {
        Some(PassthruError::ERR_NULL_PARAMETER)
    } else if filter_type == FilterType::FLOW_CONTROL_FILTER && fc is None {
        Some(PassthruError::ERR_NULL_PARAMETER)
    } else if !mask->0.wf() || !pattern->0.wf() || (fc matches Some(m) && !m.wf()) {
        Some(PassthruError::ERR_INVALID_MSG)
    } else {
        None
    }
}

/// Checks the arguments of a filter.
fn check_filter(
    filter_type: FilterType,
    mask: &Option<PASSTHRU_MSG>,
    pattern: &Option<PASSTHRU_MSG>,
    fc: &Option<PASSTHRU_MSG>,
    msg_id_is_null: bool,
) -> (r: Option<PassthruError>)
    ensures
        r == filter_refusal(filter_type, *mask, *pattern, *fc, msg_id_is_null),
{
    let mask_ok = match mask {
        Some(m) => m.data_size <= 4128,
        None => {
            return Some(PassthruError::ERR_NULL_PARAMETER);
        },
    };
    let pattern_ok = match pattern {
        Some(m) => m.data_size <= 4128,
        None => {
            return Some(PassthruError::ERR_NULL_PARAMETER);
        },
    };
    if msg_id_is_null {
        return Some(PassthruError::ERR_NULL_PARAMETER);
    }
    let fc_ok = match fc {
        Some(m) => m.data_size <= 4128,
        None => {
            if filter_type == FilterType::FLOW_CONTROL_FILTER {
                return Some(PassthruError::ERR_NULL_PARAMETER);
            }
            true
        },
    };
    if mask_ok && pattern_ok && fc_ok {
        None
    } else {
        Some(PassthruError::ERR_INVALID_MSG)
    }
}

/// Copies the meaningful bytes out of a filter message; none for a null
/// pointer.
fn get_filter_bytes(msg: &Option<PASSTHRU_MSG>) -> (r: Vec<u8>)
    requires
        msg matches Some(m) ==> m.wf(),
    ensures
        r@ == filter_bytes(*msg),
{
    match msg {
        None => Vec::new(),
        Some(m) => m.payload_bytes(),
    }
}

/// The request that asks the device to set a filter on a channel, after the
/// arguments were checked.
pub fn set_channel_filter_request(
    channels: &ChannelComm,
    channel_id: u32,
    filter_type: FilterType,
    mask: &Option<PASSTHRU_MSG>,
    pattern: &Option<PASSTHRU_MSG>,
    fc: &Option<PASSTHRU_MSG>,
    msg_id_is_null: bool,
) -> (r: PTResult<M2Request>)
    requires
        channels.wf(),
    ensures
        match filter_refusal(filter_type, *mask, *pattern, *fc, msg_id_is_null) {
            Some(e) => r matches Err(x) && x == e,
            None => match channel_at(channels@, channel_id) {
                None => r matches Err(e) && e == PassthruError::ERR_INVALID_CHANNEL_ID,
                Some(c) => match first_free(c.filters) {
                    None => r matches Err(e) && e == PassthruError::ERR_EXCEEDED_LIMIT,
                    Some(i) => r matches Ok(q) && is_request(
                        q,
                        MsgType::SetChannelFilter,
                        filter_payload(
                            channel_id,
                            i as u32,
                            filter_type,
                            filter_bytes(*mask),
                            filter_bytes(*pattern),
                            filter_bytes(*fc),
                        ),
                        250,
                    ),
                },
            },
        },
{
    match check_filter(filter_type, mask, pattern, fc, msg_id_is_null) {
        Some(e) => {
            return Err(e);
        },
        None => {},
    }
    let mask_bytes = get_filter_bytes(mask);
    let pattern_bytes = get_filter_bytes(pattern);
    let flowcontrol = get_filter_bytes(fc);
    channels.create_channel_filter_request(
        channel_id,
        filter_type,
        mask_bytes.as_slice(),
        pattern_bytes.as_slice(),
        flowcontrol.as_slice(),
    )
}

/// Sets a filter on a channel once the device has answered the request to set
/// it, and stores the filter's index in `msg_id_ptr`. What
/// `set_channel_filter_request` refuses fails in the same way whatever the
/// device says.
pub fn set_channel_filter(
    channels: &mut ChannelComm,
    channel_id: u32,
    filter_type: FilterType,
    mask: &Option<PASSTHRU_MSG>,
    pattern: &Option<PASSTHRU_MSG>,
    fc: &Option<PASSTHRU_MSG>,
    msg_id_ptr: Option<&mut u32>,
    reply: PTResult<M2Resp>,
    last_error: &mut LastError,
) -> (r: PassthruError)
    requires
        old(channels).wf(),
    ensures
        final(channels).wf(),
        match filter_refusal(filter_type, *mask, *pattern, *fc, msg_id_ptr is None) {
            Some(e) => {
                &&& r == e
                &&& final(channels)@ == old(channels)@
                &&& msg_id_ptr matches Some(p) ==> *final(p) == *p
                &&& final(last_error)@ == old(last_error)@
            },
            None => match channel_at(old(channels)@, channel_id) {
                None => {
                    &&& r == PassthruError::ERR_INVALID_CHANNEL_ID
                    &&& final(channels)@ == old(channels)@
                    &&& msg_id_ptr matches Some(p)
                    &&& *final(p) == *p
                    &&& final(last_error)@ == old(last_error)@
                },
                Some(c) => {
                    &&& final(channels)@ == old(channels)@.update(
                        channel_id as int,
                        Some(c.add_filter(device_status(reply)).0),
                    )
                    &&& msg_id_ptr matches Some(p)
                    &&& match c.add_filter(device_status(reply)).1 {
                        Ok(id) => r == PassthruError::STATUS_NOERROR && *final(p) == id,
                        Err(e) => r == e && *final(p) == *p,
                    }
                    &&& final(last_error)@ == if first_free(c.filters) is None {
                        old(last_error)@
                    } else {
                        error_text_after(old(last_error)@, reply)
                    }
                },
            },
        },
{
    match check_filter(filter_type, mask, pattern, fc, msg_id_ptr.is_none()) {
        Some(e) => {
            return e;
        },
        None => {},
    }
    match channels.create_channel_filter(channel_id, reply, last_error) {
        Ok(filter_id) => {
            match msg_id_ptr {
                Some(p) => {
                    *p = filter_id;
                },
                None => {},
            }
            PassthruError::STATUS_NOERROR
        },
        Err(e) => e,
    }
}

/// The request that asks the device to remove a filter of a channel.
pub fn del_channel_filter_request(channels: &ChannelComm, channel_id: u32, filter_id: u32) -> (r:
    PTResult<M2Request>)
    requires
        channels.wf(),
    ensures
        match channel_at(channels@, channel_id) {
            None => r matches Err(e) && e == PassthruError::ERR_INVALID_CHANNEL_ID,
            Some(c) => if c.filter_in_use(filter_id as int) {
                r matches Ok(q) && is_request(
                    q,
                    MsgType::RemoveChannelFilter,
                    pair_payload(channel_id, filter_id),
                    100,
                )
            } else {
                r matches Err(e) && e == PassthruError::ERR_INVALID_MSG_ID
            },
        },
{
    channels.remove_filter_request(channel_id, filter_id)
}

/// Removes a filter of a channel once the device has answered the request to
/// remove it. What `del_channel_filter_request` refuses fails in the same way
/// whatever the device says.
pub fn del_channel_filter(
    channels: &mut ChannelComm,
    channel_id: u32,
    filter_id: u32,
    reply: PTResult<M2Resp>,
    last_error: &mut LastError,
) -> (r: PassthruError)
    requires
        old(channels).wf(),
    ensures
        final(channels).wf(),
        match channel_at(old(channels)@, channel_id) {
            None => {
                &&& r == PassthruError::ERR_INVALID_CHANNEL_ID
                &&& final(channels)@ == old(channels)@
                &&& final(last_error)@ == old(last_error)@
            },
            Some(c) => {
                &&& r == match c.remove_filter(filter_id as int, device_status(reply)).1 {
                    Ok(_) => PassthruError::STATUS_NOERROR,
                    Err(e) => e,
                }
                &&& final(channels)@ == old(channels)@.update(
                    channel_id as int,
                    Some(c.remove_filter(filter_id as int, device_status(reply)).0),
                )
                &&& final(last_error)@ == if c.filter_in_use(filter_id as int) {
                    error_text_after(old(last_error)@, reply)
                } else {
                    old(last_error)@
                }
            },
        },
{
    match channels.remove_filter(channel_id, filter_id, reply, last_error) {
        Ok(_) => PassthruError::STATUS_NOERROR,
        Err(e) => e,
    }
}

/// Programming voltages are not supported: the request fails with `ERR_FAILED`
/// and says so in the last error.
pub fn passthru_set_programming_voltage(
    device_id: u32,
    pin_number: u32,
    voltage: u32,
    last_error: &mut LastError,
) -> (r: PassthruError)
    ensures
        r == PassthruError::ERR_FAILED,
        final(last_error)@ == "Programming voltage is not supported"@,
{
    set_error_string(last_error, "Programming voltage is not supported".to_owned());
    PassthruError::ERR_FAILED
}

/// The request that asks the device for its firmware version. A null output is
/// refused with `ERR_NULL_PARAMETER`.
pub fn passthru_read_version_request(fw_is_null: bool, dll_is_null: bool, api_is_null: bool) -> (r:
    PTResult<M2Request>)
    ensures
        if fw_is_null || dll_is_null || api_is_null {
            r matches Err(e) && e == PassthruError::ERR_NULL_PARAMETER
        } else {
            r matches Ok(q) && is_request(q, MsgType::GetFwVersion, Seq::empty(), 250)
        },
{
    if fw_is_null || dll_is_null || api_is_null {
        return Err(PassthruError::ERR_NULL_PARAMETER);
    }
    let msg = CommMsg::new(MsgType::GetFwVersion);
    Ok(M2Request { msg, require_response: true, timeout_ms: SLOW_CMD_TIMEOUT_MS })
}

/// Holds of bytes that can be handed out as a version: valid UTF-8 without a
/// zero byte.
pub open spec fn is_version_text(bytes: Seq<u8>) -> bool {
    valid_utf8(bytes) && !has_nul(bytes)
}

/// Hands out the three versions once the device has answered the request for
/// its firmware version: the firmware's from the reply, the API's, and the
/// driver's own, which the caller of this function knows. They are copied in
/// this order; the first that cannot be copied ends the call with `ERR_FAILED`
/// and a last error that names it.
pub fn passthru_read_version(
    reply: PTResult<M2Resp>,
    fw_version_ptr: Option<&mut [u8; 80]>,
    dll_version_ptr: Option<&mut [u8; 80]>,
    api_version_ptr: Option<&mut [u8; 80]>,
    dll_version: &str,
    last_error: &mut LastError,
) -> (r: PassthruError)
    ensures
        fw_version_ptr is None || dll_version_ptr is None || api_version_ptr is None ==> {
            &&& r == PassthruError::ERR_NULL_PARAMETER
            &&& final(last_error)@ == old(last_error)@
            &&& fw_version_ptr matches Some(p) ==> *final(p) == *p
            &&& dll_version_ptr matches Some(p) ==> *final(p) == *p
            &&& api_version_ptr matches Some(p) ==> *final(p) == *p
        },
        fw_version_ptr matches Some(fw) ==> (dll_version_ptr matches Some(dll) ==> (
        api_version_ptr matches Some(api) ==> match device_status(reply) {
            Err(e) => {
                &&& r == e
                &&& final(last_error)@ == error_text_after(old(last_error)@, reply)
                &&& *final(fw) == *fw
                &&& *final(dll) == *dll
                &&& *final(api) == *api
            },
            Ok(data) => {
                let fw_ok = is_version_text(data);
                let api_ok = fw_ok && !has_nul(API_VERSION.spec_bytes());
                let dll_ok = api_ok && !has_nul(dll_version.spec_bytes());
                &&& r == if dll_ok {
                    PassthruError::STATUS_NOERROR
                } else {
                    PassthruError::ERR_FAILED
                }
                &&& final(fw)@ == if fw_ok {
                    buffer_with(fw@, data)
                } else {
                    fw@
                }
                &&& final(api)@ == if api_ok {
                    buffer_with(api@, API_VERSION.spec_bytes())
                } else {
                    api@
                }
                &&& final(dll)@ == if dll_ok {
                    buffer_with(dll@, dll_version.spec_bytes())
                } else {
                    dll@
                }
                &&& final(last_error)@ == if !fw_ok {
                    "FW Version copy failed"@
                } else if !api_ok {
                    "API Version copy failed"@
                } else if !dll_ok {
                    "DLL Version copy failed"@
                } else {
                    old(last_error)@
                }
            },
        })),
{
    let (fw, dll, api) = match (fw_version_ptr, dll_version_ptr, api_version_ptr) {
        (Some(fw), Some(dll), Some(api)) => (fw, dll, api),
        _ => {
            return PassthruError::ERR_NULL_PARAMETER;
        },
    };
    let data = match settle(reply, last_error) {
        Ok(data) => data,
        Err(e) => {
            return e;
        },
    };
    let readable = string_from_utf8(slice_to_vec(data.as_slice())).is_some();
    if !readable || !copy_c_string(fw, data.as_slice()) {
        set_error_string(last_error, "FW Version copy failed".to_owned());
        return PassthruError::ERR_FAILED;
    }
    if !copy_c_string(api, API_VERSION.as_bytes()) {
        set_error_string(last_error, "API Version copy failed".to_owned());
        return PassthruError::ERR_FAILED;
    }
    if !copy_c_string(dll, dll_version.as_bytes()) {
        set_error_string(last_error, "DLL Version copy failed".to_owned());
        return PassthruError::ERR_FAILED;
    }
    PassthruError::STATUS_NOERROR
}

/// Hands out the description of the last failure. A null output is refused
/// with `ERR_NULL_PARAMETER`; a description with a zero byte in it cannot be
/// handed out, and the call fails with `ERR_FAILED`.
pub fn passthru_get_last_error(dest: Option<&mut [u8; 80]>, last_error: &LastError) -> (r:
    PassthruError)
    ensures
        match dest {
            None => r == PassthruError::ERR_NULL_PARAMETER,
            Some(p) => if has_nul(encode_utf8(last_error@)) {
                r == PassthruError::ERR_FAILED && *final(p) == *p
            } else {
                r == PassthruError::STATUS_NOERROR && final(p)@ == buffer_with(
                    p@,
                    encode_utf8(last_error@),
                )
            },
        },
{
    match dest {
        None => PassthruError::ERR_NULL_PARAMETER,
        Some(p) => {
            if copy_c_string(p, last_error.text.as_str().as_bytes()) {
                PassthruError::STATUS_NOERROR
            } else {
                PassthruError::ERR_FAILED
            }
        },
    }
}

/// Starts a transfer of messages: the count that the caller handed in is how
/// many messages are wanted, and from here on it counts the messages done. A
/// null pointer is refused with `ERR_NULL_PARAMETER`.
pub fn start_msgs(msgs_is_null: bool, num_msgs: Option<&mut u32>) -> (r: PTResult<u32>)
    ensures
        match num_msgs {
            None => r == PTResult::<u32>::Err(PassthruError::ERR_NULL_PARAMETER),
            Some(p) => if msgs_is_null {
                r == PTResult::<u32>::Err(PassthruError::ERR_NULL_PARAMETER) && *final(p) == *p
            } else {
                r == PTResult::<u32>::Ok(*p) && *final(p) == 0
            },
        },
{
    match num_msgs {
        None => Err(PassthruError::ERR_NULL_PARAMETER),
        Some(p) => {
            if msgs_is_null {
                return Err(PassthruError::ERR_NULL_PARAMETER);
            }
            let max_msgs: u32 = *p;
            *p = 0;
            Ok(max_msgs)
        },
    }
}

/// Holds when a transfer with a deadline has run past it. A timeout of 0 sets
/// no deadline.
pub open spec fn deadline_passed(timeout_ms: u32, elapsed_ms: u128) -> bool {
    timeout_ms != 0 && elapsed_ms > timeout_ms
}

/// The request that hands the next message of a transfer to the device, after
/// `elapsed_ms` milliseconds of the transfer. Past the deadline the transfer
/// ends with `ERR_TIMEOUT`. With a timeout of 0 the request is sent and
/// forgotten; otherwise its reply is awaited.
pub fn write_msgs_request(
    channels: &ChannelComm,
    channel_id: u32,
    msg: &PASSTHRU_MSG,
    timeout_ms: u32,
    elapsed_ms: u128,
) -> (r: PTResult<M2Request>)
    requires
        channels.wf(),
    ensures
        if deadline_passed(timeout_ms, elapsed_ms) {
            r matches Err(e) && e == PassthruError::ERR_TIMEOUT
        } else {
            match channel_at(channels@, channel_id) {
                None => r matches Err(e) && e == PassthruError::ERR_INVALID_CHANNEL_ID,
                Some(c) => match c.transmit_refusal(*msg) {
                    Some(refusal) => r matches Err(e) && e == refusal,
                    None => {
                        &&& r matches Ok(q)
                        &&& q.msg@ == (crate::comm::Frame {
                            id: 0,
                            kind: MsgType::TransmitChannelData,
                            payload: crate::comm::clipped(
                                crate::channels::transmit_payload(
                                    channel_id,
                                    msg.tx_flags,
                                    msg.payload(),
                                ),
                            ),
                        })
                        &&& q.msg.wf()
                        &&& q.require_response == (timeout_ms != 0)
                        &&& q.timeout_ms == 100
                    },
                },
            }
        },
{
    if timeout_ms != 0 && elapsed_ms > timeout_ms as u128 {
        return Err(PassthruError::ERR_TIMEOUT);
    }
    channels.write_channel_data_request(channel_id, msg, timeout_ms != 0)
}

/// Counts a message of a transfer as written once the device has taken it.
/// What `write_msgs_request` refuses for the channel or the message fails in
/// the same way whatever the device says, and is not counted.
pub fn write_msgs(
    channels: &ChannelComm,
    channel_id: u32,
    msg: &PASSTHRU_MSG,
    reply: PTResult<M2Resp>,
    num_msgs: &mut u32,
    last_error: &mut LastError,
) -> (r: PassthruError)
    requires
        *old(num_msgs) < u32::MAX,
    ensures
        match channel_at(channels@, channel_id) {
            None => {
                &&& r == PassthruError::ERR_INVALID_CHANNEL_ID
                &&& *final(num_msgs) == *old(num_msgs)
                &&& final(last_error)@ == old(last_error)@
            },
            Some(c) => match c.transmit_refusal(*msg) {
                Some(refusal) => {
                    &&& r == refusal
                    &&& *final(num_msgs) == *old(num_msgs)
                    &&& final(last_error)@ == old(last_error)@
                },
                None => {
                    &&& match device_status(reply) {
                        Ok(_) => r == PassthruError::STATUS_NOERROR && *final(num_msgs) == *old(
                            num_msgs,
                        ) + 1,
                        Err(e) => r == e && *final(num_msgs) == *old(num_msgs),
                    }
                    &&& final(last_error)@ == error_text_after(old(last_error)@, reply)
                },
            },
        },
{
    match channels.write_channel_data(channel_id, msg, reply, last_error) {
        Ok(()) => {
            *num_msgs += 1;
            PassthruError::STATUS_NOERROR
        },
        Err(e) => e,
    }
}

/// What one step of reading messages came to.
#[derive(Debug, Copy, Clone, PartialEq, Eq, Structural)]
pub enum MsgStep {
    /// A message was taken off the queue and counted.
    Stored,
    /// Nothing is buffered and the deadline has not passed: try again.
    Retry,
    /// The transfer is over with this status.
    Done(PassthruError),
}

/// Reads the next message of a transfer, after `elapsed_ms` milliseconds of the
/// transfer: the oldest buffered message of the channel goes to `slot` and is
/// counted. Past the deadline the transfer ends with `ERR_TIMEOUT`. With nothing
/// buffered a transfer without a deadline ends with `ERR_BUFFER_EMPTY`, and one
/// with a deadline goes on.
pub fn read_msgs(
    channels: &mut ChannelComm,
    channel_id: u32,
    timeout_ms: u32,
    elapsed_ms: u128,
    slot: &mut PASSTHRU_MSG,
    num_msgs: &mut u32,
) -> (r: MsgStep)
    requires
        old(channels).wf(),
        *old(num_msgs) < u32::MAX,
    ensures
        final(channels).wf(),
        r is Stored || (final(channels)@ == old(channels)@ && *final(slot) == *old(slot)
            && *final(num_msgs) == *old(num_msgs)),
        if deadline_passed(timeout_ms, elapsed_ms) {
            r == MsgStep::Done(PassthruError::ERR_TIMEOUT)
        } else {
            match channel_at(old(channels)@, channel_id) {
                None => r == MsgStep::Done(PassthruError::ERR_INVALID_CHANNEL_ID),
                Some(c) => if c.rx.len() == 0 {
                    r == if timeout_ms == 0 {
                        MsgStep::Done(PassthruError::ERR_BUFFER_EMPTY)
                    } else {
                        MsgStep::Retry
                    }
                } else {
                    &&& r is Stored
                    &&& *final(slot) == c.rx[0]
                    &&& *final(num_msgs) == *old(num_msgs) + 1
                    &&& final(channels)@ == old(channels)@.update(
                        channel_id as int,
                        Some(ChannelView { rx: c.rx.subrange(1, c.rx.len() as int), ..c }),
                    )
                },
            }
        },
{
    if timeout_ms != 0 && elapsed_ms > timeout_ms as u128 {
        return MsgStep::Done(PassthruError::ERR_TIMEOUT);
    }
    match channels.read_channel_data(channel_id) {
        Ok(opt) => {
            match opt {
                Some(msg) => {
                    *slot = msg;
                    *num_msgs += 1;
                    MsgStep::Stored
                },
                None => {
                    if timeout_ms == 0 {
                        MsgStep::Done(PassthruError::ERR_BUFFER_EMPTY)
                    } else {
                        MsgStep::Retry
                    }
                },
            }
        },
        Err(e) => MsgStep::Done(e),
    }
}

/// The number of messages that a transfer without a deadline reads: as many as
/// are wanted, or as many as are buffered where that is less.
pub open spec fn read_count(max_msgs: u32, buffered: int) -> int {
    if max_msgs <= buffered {
        max_msgs as int
    } else {
        buffered
    }
}

/// Reads up to `max_msgs` messages of a channel without waiting, which is a
/// whole transfer with a timeout of 0: the oldest buffered messages are appended
/// to `msgs`, oldest first. Where fewer are buffered than were wanted the
/// transfer ends with `ERR_BUFFER_EMPTY`.
pub fn read_buffered_msgs(
    channels: &mut ChannelComm,
    channel_id: u32,
    msgs: &mut Vec<PASSTHRU_MSG>,
    max_msgs: u32,
) -> (r: PassthruError)
    requires
        old(channels).wf(),
    ensures
        final(channels).wf(),
        match channel_at(old(channels)@, channel_id) {
            None => {
                &&& r == if max_msgs == 0 {
                    PassthruError::STATUS_NOERROR
                } else {
                    PassthruError::ERR_INVALID_CHANNEL_ID
                }
                &&& final(channels)@ == old(channels)@
                &&& final(msgs)@ == old(msgs)@
            },
            Some(c) => {
                let n = read_count(max_msgs, c.rx.len() as int);
                &&& r == if n == max_msgs {
                    PassthruError::STATUS_NOERROR
                } else {
                    PassthruError::ERR_BUFFER_EMPTY
                }
                &&& final(msgs)@ == old(msgs)@ + c.rx.subrange(0, n)
                &&& final(channels)@ == old(channels)@.update(
                    channel_id as int,
                    Some(ChannelView { rx: c.rx.subrange(n, c.rx.len() as int), ..c }),
                )
            },
        },
{
    let ghost before = channel_at(channels@, channel_id);
    proof {
        channels.lemma_wf_view();
        if before is Some {
            let c = before->0;
            assert(c.rx.subrange(0, c.rx.len() as int) =~= c.rx);
        }
    }
    let mut i: u32 = 0;
    while i < max_msgs
        invariant
            i <= max_msgs,
            channels.wf(),
            old(channels)@.len() == 4,
            before == channel_at(old(channels)@, channel_id),
            match before {
                None => channels@ == old(channels)@ && msgs@ == old(msgs)@ && i == 0,
                Some(c) => {
                    &&& i <= c.rx.len()
                    &&& msgs@ == old(msgs)@ + c.rx.subrange(0, i as int)
                    &&& channels@ == old(channels)@.update(
                        channel_id as int,
                        Some(ChannelView { rx: c.rx.subrange(i as int, c.rx.len() as int), ..c }),
                    )
                },
            },
        decreases max_msgs - i,
    {
        match channels.read_channel_data(channel_id) {
            Ok(Some(msg)) => {
                msgs.push(msg);
                i += 1;
                proof {
                    let c = before->0;
                    assert(c.rx.subrange(i as int - 1, c.rx.len() as int).subrange(
                        1,
                        c.rx.len() - (i - 1),
                    ) =~= c.rx.subrange(i as int, c.rx.len() as int));
                }
            },
            Ok(None) => {
                return PassthruError::ERR_BUFFER_EMPTY;
            },
            Err(e) => {
                return e;
            },
        }
    }
    PassthruError::STATUS_NOERROR
}

} // verus!
