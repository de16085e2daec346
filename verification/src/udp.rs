//! Decision logic of the discovery (UDP) worker. The worker loops: poll the
//! command channel without blocking, then either broadcast a probe, stop, or
//! wait briefly for an inbound datagram; any datagram received is answered by
//! exactly one outbound TCP acknowledgment to its sender. The socket calls
//! themselves are made by the caller of `udp_step`; this module decides what
//! to do at each turn of the loop.

use vstd::prelude::*;
use crate::codec::{spec_u32_le, u32_le_byte};
use crate::pear::PeardConfig;

verus! {

/// Channel command asking the worker to broadcast a probe.
pub const CMD_BROADCAST: u8 = 1;

/// Channel command asking the worker to stop.
pub const CMD_TERMINATE: u8 = 0;

/// What one turn of the worker loop observed: the non-blocking poll of the
/// command channel, or the datagram a bounded-wait receive returned.
pub enum UdpEvent {
    /// A command value arrived on the channel.
    Command(u8),
    /// The command channel is disconnected.
    ChannelClosed,
    /// No command is pending.
    ChannelEmpty,
    /// A datagram arrived from this source address and port.
    Datagram([u8; 4], u16),
}

/// What the worker does next.
pub enum UdpAction {
    /// Broadcast this probe frame to the subnet broadcast address on this port.
    Broadcast([u8; 10], u16),
    /// Leave the loop.
    Terminate,
    /// Wait (with the configured bound) for an inbound datagram.
    Receive,
    /// Open one TCP connection to this address and port and write this
    /// acknowledgment frame.
    Acknowledge([u8; 4], u16, [u8; 5]),
}

/// The fixed 10-byte discovery probe: a 4-byte marker, a zero byte, a small
/// reserved sequence, and a trailing zero.
pub open spec fn spec_probe_frame() -> Seq<u8> {
    seq![0xF0u8, 0x9Fu8, 0x8Du8, 0x90u8, 0u8, 1u8, 2u8, 3u8, 5u8, 0u8]
}

/// The 5-byte identity acknowledgment: message type 1 ("register"), then the
/// sender's device id little-endian.
pub open spec fn spec_ack_frame(id: u32) -> Seq<u8> {
    seq![1u8] + spec_u32_le(id)
}

/// The fixed discovery probe broadcast on every round.
pub fn make_probe_frame() -> (buf: [u8; 10])
    ensures
        buf@ =~= spec_probe_frame(),
{
    [0xF0u8, 0x9Fu8, 0x8Du8, 0x90u8, 0u8, 1u8, 2u8, 3u8, 5u8, 0u8]
}

/// The identity acknowledgment carrying this daemon's device id.
pub fn make_ack_frame(id: u32) -> (buf: [u8; 5])
    ensures
        buf@ =~= spec_ack_frame(id),
{
    let mut buf = [0u8; 5];
    buf[0] = 1;
    buf[1] = u32_le_byte(id, 0);
    buf[2] = u32_le_byte(id, 1);
    buf[3] = u32_le_byte(id, 2);
    buf[4] = u32_le_byte(id, 3);
    buf
}

/// One decision of the discovery worker loop.
///
/// A broadcast command sends the fixed probe to the configured broadcast
/// port; the terminate sentinel, or a closed channel, stops the worker at
/// once — within the very poll that sees it. Any received datagram is
/// treated as a discovery request and answered by exactly one outbound
/// acknowledgment to the datagram's source address, with the source port
/// rewritten to the daemon's well-known callback port. Anything else waits
/// for traffic.
pub fn udp_step(event: &UdpEvent, config: &PeardConfig) -> (a: UdpAction)
    requires
        config.wf(),
    ensures
        event matches UdpEvent::Command(c) && c == CMD_BROADCAST ==> (a matches
            UdpAction::Broadcast(frame, port) && frame@ == spec_probe_frame() && port
            == config.spec_broadcast_port()),
        event matches UdpEvent::Command(c) && c == CMD_TERMINATE ==> a is Terminate,
        event is ChannelClosed ==> a is Terminate,
        event matches UdpEvent::Command(c) && c != CMD_BROADCAST && c != CMD_TERMINATE ==> a
            is Receive,
        event is ChannelEmpty ==> a is Receive,
        event matches UdpEvent::Datagram(src, src_port) ==> (a matches UdpAction::Acknowledge(
            dst,
            dst_port,
            frame,
        ) && dst == src && dst_port == config.interface_port && frame@ == spec_ack_frame(
            config.device_id,
        )),
{
    match event {
        UdpEvent::Command(c) => {
            if *c == CMD_BROADCAST {
                UdpAction::Broadcast(make_probe_frame(), config.broadcast_port())
            } else if *c == CMD_TERMINATE {
                UdpAction::Terminate
            } else {
                UdpAction::Receive
            }
        },
        UdpEvent::ChannelClosed => UdpAction::Terminate,
        UdpEvent::ChannelEmpty => UdpAction::Receive,
        UdpEvent::Datagram(src, _src_port) => UdpAction::Acknowledge(
            *src,
            config.interface_port,
            make_ack_frame(config.device_id),
        ),
    }
}

} // verus!
