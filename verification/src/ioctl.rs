//! The IOCTL operations: reading the battery voltage, clearing a channel's
//! queues, walking a configuration list, and the operations that are accepted
//! without doing anything yet.

use crate::channels::{
    channel_at, device_status, error_text_after, is_request, settle, ChannelComm, ChannelView,
    Registry, SLOW_CMD_TIMEOUT_MS,
};
use crate::comm::{CommMsg, M2Request, M2Resp, MsgType, PTResult};
use crate::j2534_common::{
    IoctlParam, Parsable, PassthruError, SConfig, SConfigList, PASSTHRU_MSG, SBYTE_ARRAY,
};
use crate::passthru_drv::{set_error_string, LastError};
use crate::wire::{read_u32_le, u32_le};
use vstd::prelude::*;

verus! {

/// The request that asks the device for the battery voltage.
pub fn read_vbatt_request() -> (r: M2Request)
    ensures
        is_request(r, MsgType::ReadBatt, Seq::empty(), 250),
{
    let msg = CommMsg::new(MsgType::ReadBatt);
    M2Request { msg, require_response: true, timeout_ms: SLOW_CMD_TIMEOUT_MS }
}

/// The status of reading the battery voltage: the status of whoever failed, or
/// `ERR_FAILED` for a reply too short to hold the 32-bit number of millivolts.
pub open spec fn vbatt_status(reply: PTResult<M2Resp>) -> PassthruError {
    match device_status(reply) {
        Err(e) => e,
        Ok(data) => if data.len() >= 4 {
            PassthruError::STATUS_NOERROR
        } else {
            PassthruError::ERR_FAILED
        },
    }
}

/// The description of the last failure after reading the battery voltage.
pub open spec fn vbatt_error_text(before: Seq<char>, reply: PTResult<M2Resp>) -> Seq<char> {
    match device_status(reply) {
        Err(e) => error_text_after(before, reply),
        Ok(data) => if data.len() >= 4 {
            before
        } else {
            "Battery voltage response is too short"@
        },
    }
}

/// Stores the battery voltage in `output` once the device has answered the
/// request for it: the little-endian number in the first four bytes of the
/// reply, in millivolts. Where there is no voltage `output` is left as it was.
pub fn read_vbatt(reply: PTResult<M2Resp>, output: &mut u32, last_error: &mut LastError) -> (r:
    PassthruError)
    ensures
        r == vbatt_status(reply),
        *final(output) == match device_status(reply) {
            Ok(data) => if data.len() >= 4 {
                u32_le(data)
            } else {
                *old(output)
            },
            Err(_) => *old(output),
        },
        final(last_error)@ == vbatt_error_text(old(last_error)@, reply),
{
    match settle(reply, last_error) {
        Ok(args) => {
            if args.len() < 4 {
                set_error_string(last_error, "Battery voltage response is too short".to_owned());
                return PassthruError::ERR_FAILED;
            }
            *output = read_u32_le(args.as_slice());
            PassthruError::STATUS_NOERROR
        },
        Err(status) => status,
    }
}

/// Reading the programming voltage is accepted and does nothing.
pub fn read_prog_voltage(output: &mut u32) -> (r: PassthruError)
    ensures
        r == PassthruError::STATUS_NOERROR,
        *final(output) == *old(output),
{
    PassthruError::STATUS_NOERROR
}

/// The status of walking the first `count` entries of a configuration list from
/// entry `i` on. An entry that is not there stops the walk with
/// `ERR_NULL_PARAMETER`. A parameter number of 0x20 or above is reserved and
/// skipped. A lower number that names no parameter stops the walk with
/// `ERR_INVALID_IOCTL_VALUE`. A known parameter goes to the channel, which
/// cannot get or set any yet: the walk stops with `ERR_NOT_SUPPORTED`, or with
/// `ERR_INVALID_CHANNEL_ID` where the channel is not open.
pub open spec fn config_status(
    reg: Registry,
    channel_id: u32,
    entries: Seq<SConfig>,
    count: u32,
    i: int,
) -> PassthruError
    decreases count - i,
{
    if i < 0 || i >= count {
        PassthruError::STATUS_NOERROR
    } else if i >= entries.len() {
        PassthruError::ERR_NULL_PARAMETER
    } else if entries[i].parameter >= 0x20 {
        config_status(reg, channel_id, entries, count, i + 1)
    } else if <IoctlParam as Parsable>::parse(entries[i].parameter) is None {
        PassthruError::ERR_INVALID_IOCTL_VALUE
    } else if channel_at(reg, channel_id) is Some {
        PassthruError::ERR_NOT_SUPPORTED
    } else {
        PassthruError::ERR_INVALID_CHANNEL_ID
    }
}

/// Sets the parameters of a configuration list on a channel, entry by entry.
pub fn set_config(channels: &mut ChannelComm, channel_id: u32, cfg_ptr: &SConfigList) -> (r:
    PassthruError)
    ensures
        r == config_status(old(channels)@, channel_id, cfg_ptr.config_ptr@, cfg_ptr.num_of_params, 0),
        *final(channels) == *old(channels),
{
    let mut i: u32 = 0;
    while i < cfg_ptr.num_of_params
        invariant
            i <= cfg_ptr.num_of_params,
            *channels == *old(channels),
            config_status(
                old(channels)@,
                channel_id,
                cfg_ptr.config_ptr@,
                cfg_ptr.num_of_params,
                0,
            ) == config_status(
                old(channels)@,
                channel_id,
                cfg_ptr.config_ptr@,
                cfg_ptr.num_of_params,
                i as int,
            ),
        decreases cfg_ptr.num_of_params - i,
    {
        if i as usize >= cfg_ptr.config_ptr.len() {
            return PassthruError::ERR_NULL_PARAMETER;
        }
        let param: SConfig = cfg_ptr.config_ptr[i as usize];
        if param.parameter < 0x20 {
            match IoctlParam::from_raw(param.parameter) {
                Some(pname) => {
                    if let Err(e) = channels.ioctl_set_cfg(channel_id, pname, param.value) {
                        return e;
                    }
                },
                None => {
                    return PassthruError::ERR_INVALID_IOCTL_VALUE;
                },
            }
        }
        i += 1;
    }
    PassthruError::STATUS_NOERROR
}

/// Reads the parameters of a configuration list from a channel, entry by entry,
/// into the entries' values.
pub fn get_config(channels: &ChannelComm, channel_id: u32, cfg_ptr: &mut SConfigList) -> (r:
    PassthruError)
    ensures
        r == config_status(
            channels@,
            channel_id,
            old(cfg_ptr).config_ptr@,
            old(cfg_ptr).num_of_params,
            0,
        ),
        final(cfg_ptr).num_of_params == old(cfg_ptr).num_of_params,
        final(cfg_ptr).config_ptr@ == old(cfg_ptr).config_ptr@,
{
    let mut i: u32 = 0;
    while i < cfg_ptr.num_of_params
        invariant
            i <= cfg_ptr.num_of_params,
            cfg_ptr.num_of_params == old(cfg_ptr).num_of_params,
            cfg_ptr.config_ptr@ == old(cfg_ptr).config_ptr@,
            config_status(
                channels@,
                channel_id,
                cfg_ptr.config_ptr@,
                cfg_ptr.num_of_params,
                0,
            ) == config_status(
                channels@,
                channel_id,
                cfg_ptr.config_ptr@,
                cfg_ptr.num_of_params,
                i as int,
            ),
        decreases cfg_ptr.num_of_params - i,
    {
        if i as usize >= cfg_ptr.config_ptr.len() {
            return PassthruError::ERR_NULL_PARAMETER;
        }
        let param: SConfig = cfg_ptr.config_ptr[i as usize];
        if param.parameter < 0x20 {
            match IoctlParam::from_raw(param.parameter) {
                Some(pname) => {
                    match channels.ioctl_get_cfg(channel_id, pname) {
                        Ok(pvalue) => {
                            cfg_ptr.config_ptr[i as usize] = SConfig {
                                parameter: param.parameter,
                                value: pvalue,
                            };
                        },
                        Err(e) => {
                            return e;
                        },
                    }
                },
                None => {
                    return PassthruError::ERR_INVALID_IOCTL_VALUE;
                },
            }
        }
        i += 1;
    }
    PassthruError::STATUS_NOERROR
}

/// A five-baud initialisation is accepted and does nothing.
pub fn five_baud_init(channel_id: u32, input: &mut SBYTE_ARRAY, output: &mut SBYTE_ARRAY) -> (r:
    PassthruError)
    ensures
        r == PassthruError::STATUS_NOERROR,
        *final(input) == *old(input),
        *final(output) == *old(output),
{
    PassthruError::STATUS_NOERROR
}

/// A fast initialisation is accepted and does nothing.
pub fn fast_init(channel_id: u32, input: &mut PASSTHRU_MSG, output: &mut PASSTHRU_MSG) -> (r:
    PassthruError)
    ensures
        r == PassthruError::STATUS_NOERROR,
        *final(input) == *old(input),
        *final(output) == *old(output),
{
    PassthruError::STATUS_NOERROR
}

/// Empties the transmit queue of a channel. An id that names no open channel
/// gives `ERR_INVALID_CHANNEL_ID`.
pub fn clear_tx_buffer(channels: &mut ChannelComm, channel_id: u32) -> (r: PassthruError)
    requires
        old(channels).wf(),
    ensures
        final(channels).wf(),
        match channel_at(old(channels)@, channel_id) {
            None => r == PassthruError::ERR_INVALID_CHANNEL_ID && final(channels)@ == old(
                channels,
            )@,
            Some(c) => r == PassthruError::STATUS_NOERROR && final(channels)@ == old(
                channels,
            )@.update(channel_id as int, Some(ChannelView { tx: Seq::empty(), ..c })),
        },
{
    channels.clear_tx_buffer(channel_id)
}

/// Empties the receive queue of a channel. An id that names no open channel
/// gives `ERR_INVALID_CHANNEL_ID`.
pub fn clear_rx_buffer(channels: &mut ChannelComm, channel_id: u32) -> (r: PassthruError)
    requires
        old(channels).wf(),
    ensures
        final(channels).wf(),
        match channel_at(old(channels)@, channel_id) {
            None => r == PassthruError::ERR_INVALID_CHANNEL_ID && final(channels)@ == old(
                channels,
            )@,
            Some(c) => r == PassthruError::STATUS_NOERROR && final(channels)@ == old(
                channels,
            )@.update(channel_id as int, Some(ChannelView { rx: Seq::empty(), ..c })),
        },
{
    channels.clear_rx_buffer(channel_id)
}

/// Clearing the periodic messages is accepted and does nothing.
pub fn clear_periodic_msgs(channel_id: u32) -> (r: PassthruError)
    ensures
        r == PassthruError::STATUS_NOERROR,
{
    PassthruError::STATUS_NOERROR
}

/// Clearing the message filters is accepted and does nothing.
pub fn clear_msg_filters(channel_id: u32) -> (r: PassthruError)
    ensures
        r == PassthruError::STATUS_NOERROR,
{
    PassthruError::STATUS_NOERROR
}

/// Clearing the functional message lookup table is accepted and does nothing.
pub fn clear_funct_msg_lookup_table(channel_id: u32) -> (r: PassthruError)
    ensures
        r == PassthruError::STATUS_NOERROR,
{
    PassthruError::STATUS_NOERROR
}

/// Adding to the functional message lookup table is accepted and does nothing.
pub fn add_to_funct_msg_lookup_table(channel_id: u32, input: &mut SBYTE_ARRAY) -> (r:
    PassthruError)
    ensures
        r == PassthruError::STATUS_NOERROR,
        *final(input) == *old(input),
{
    PassthruError::STATUS_NOERROR
}

/// Deleting from the functional message lookup table is accepted and does
/// nothing.
pub fn delete_from_funct_msg_lookup_table(channel_id: u32, input: &mut SBYTE_ARRAY) -> (r:
    PassthruError)
    ensures
        r == PassthruError::STATUS_NOERROR,
        *final(input) == *old(input),
{
    PassthruError::STATUS_NOERROR
}

} // verus!
