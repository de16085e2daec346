//! Decision logic of the control-channel dispatcher. One fixed 8-byte
//! request header arrives per daemon invocation; dispatch on its `d_type`
//! decides whether to print the registry, run a discovery cycle, or forward
//! a payload to a registered peer over a fresh TCP connection. The pipe and
//! socket work is done by the caller; this module only decides.

use vstd::prelude::*;
use crate::codec::{spec_u32_le, u32_le_byte};
use crate::pear::{PeardConfig, PipeHeader};
use crate::registry::{spec_find, Registry};

verus! {

/// Request type asking for the current registry snapshot.
pub const D_TYPE_LIST: u8 = 0;

/// Request type asking for a fresh two-round discovery cycle.
pub const D_TYPE_REFRESH: u8 = 2;

/// Request type asking to forward a payload to a registered peer.
pub const D_TYPE_SEND: u8 = 10;

/// How many broadcast rounds one discovery cycle runs. Unconditional: the
/// daemon's only retry mechanism.
pub const DISCOVERY_ROUNDS: u8 = 2;

/// Seconds waited after each broadcast round for acknowledgments to settle.
pub const SETTLE_INTERVAL_SECS: u64 = 2;

/// The 5-byte header opening a forwarded payload: message type 10 ("send"),
/// then the sending daemon's device id little-endian; the payload follows.
pub open spec fn spec_send_frame(id: u32) -> Seq<u8> {
    seq![D_TYPE_SEND] + spec_u32_le(id)
}

/// The send-frame header carrying this daemon's device id.
pub fn make_send_frame(id: u32) -> (buf: [u8; 5])
    ensures
        buf@ =~= spec_send_frame(id),
{
    let mut buf = [0u8; 5];
    buf[0] = D_TYPE_SEND;
    buf[1] = u32_le_byte(id, 0);
    buf[2] = u32_le_byte(id, 1);
    buf[3] = u32_le_byte(id, 2);
    buf[4] = u32_le_byte(id, 3);
    buf
}

/// What the dispatcher decides for one request.
pub enum DispatchAction {
    /// Print the current registry snapshot.
    ListDevices,
    /// Signal the discovery worker and sleep through both settle intervals.
    Refresh,
    /// Open one TCP connection to this address and port, write this send
    /// frame, then the declared number of payload bytes.
    Send([u8; 4], u16, [u8; 5], u16),
    /// Warn that the target id is not registered; touch the network not at
    /// all.
    UnknownTarget(u32),
    /// A response frame or an unknown request type: accepted and ignored.
    Ignore,
}

/// One dispatch of a control-channel request.
///
/// A nonzero response flag short-circuits everything. A list request prints
/// the snapshot; a refresh request runs the two-round discovery cycle; a
/// send request resolves its target against the registry and forwards the
/// payload to the address on record — an unregistered target is answered by
/// a warning alone, never by a network connection. Unknown request types are
/// ignored without error.
pub fn dispatch(header: &PipeHeader, registry: &Registry, config: &PeardConfig) -> (a:
    DispatchAction)
    ensures
        header.r_flag != 0 ==> a is Ignore,
        header.r_flag == 0 && header.d_type == D_TYPE_LIST ==> a is ListDevices,
        header.r_flag == 0 && header.d_type == D_TYPE_REFRESH ==> a is Refresh,
        (header.r_flag == 0 && header.d_type == D_TYPE_SEND && spec_find(
            registry@,
            header.target_id,
        ) is Some) ==> (a matches DispatchAction::Send(addr, port, frame, p_len) && addr
            == spec_find(registry@, header.target_id)->Some_0.ip_addr && port
            == config.interface_port && frame@ == spec_send_frame(config.device_id) && p_len
            == header.p_len),
        header.r_flag == 0 && header.d_type == D_TYPE_SEND && spec_find(registry@, header.target_id)
            is None ==> a == DispatchAction::UnknownTarget(header.target_id),
        header.r_flag == 0 && header.d_type != D_TYPE_LIST && header.d_type != D_TYPE_REFRESH
            && header.d_type != D_TYPE_SEND ==> a is Ignore,
{
    if header.r_flag != 0 {
        return DispatchAction::Ignore;
    }
    if header.d_type == D_TYPE_LIST {
        DispatchAction::ListDevices
    } else if header.d_type == D_TYPE_REFRESH {
        DispatchAction::Refresh
    } else if header.d_type == D_TYPE_SEND {
        match registry.find(header.target_id) {
            Some(dev) => DispatchAction::Send(
                dev.ip_addr,
                config.interface_port,
                make_send_frame(config.device_id),
                header.p_len,
            ),
            None => DispatchAction::UnknownTarget(header.target_id),
        }
    } else {
        DispatchAction::Ignore
    }
}

} // verus!
