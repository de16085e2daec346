//! Decision logic of the callback (TCP) worker. The worker accepts one-shot
//! connections, reads one fixed 10-byte frame from each, and registers the
//! peer the connection came from. Accepting, reading and closing are done by
//! the caller; this module parses the frame and runs the registry update,
//! and decides when a poll of the shutdown channel stops the worker.

use vstd::prelude::*;
use crate::codec::spec_u32_of_le;
use crate::registry::{spec_contains_id, spec_register, Registry};

verus! {

/// Frame message type asking to register the sending peer.
pub const MSG_REGISTER: u8 = 1;

/// The device id carried by a 10-byte callback frame: little-endian at
/// bytes 1..5; byte 0 is the message type, the rest is reserved.
pub open spec fn spec_frame_id(s: Seq<u8>) -> u32 {
    spec_u32_of_le(s[1], s[2], s[3], s[4])
}

/// Reads message type and device id out of a callback frame.
pub fn parse_callback_frame(frame: &[u8; 10]) -> (r: (u8, u32))
    ensures
        r.0 == frame@[0],
        r.1 == spec_frame_id(frame@),
{
    let msg_type = frame[0];
    let id = crate::codec::u32_of_le(frame[1], frame[2], frame[3], frame[4]);
    (msg_type, id)
}

/// Handles one callback frame from a connection whose peer address was
/// `peer_addr`: a register frame claims its id for that address — silently
/// dropped when the id is taken — and any other message type is accepted
/// and ignored. Returns whether a new peer was registered.
pub fn handle_callback_frame(registry: &mut Registry, frame: &[u8; 10], peer_addr: [u8; 4]) -> (added:
    bool)
    requires
        old(registry).wf(),
    ensures
        final(registry).wf(),
        frame@[0] == MSG_REGISTER ==> final(registry)@ == spec_register(
            old(registry)@,
            spec_frame_id(frame@),
            peer_addr,
        ),
        frame@[0] == MSG_REGISTER ==> added == !spec_contains_id(
            old(registry)@,
            spec_frame_id(frame@),
        ),
        frame@[0] != MSG_REGISTER ==> final(registry)@ == old(registry)@ && !added,
{
    let (msg_type, id) = parse_callback_frame(frame);
    if msg_type == MSG_REGISTER {
        registry.register_if_absent(id, peer_addr)
    } else {
        false
    }
}

/// What one non-blocking poll of the worker's shutdown channel saw.
pub enum ShutdownPoll {
    /// The shutdown sentinel arrived.
    Sentinel,
    /// The channel is disconnected.
    Closed,
    /// Nothing is pending.
    Empty,
}

/// Whether the worker leaves its accept loop after this poll: it stops on
/// the sentinel or a closed channel — within the very poll that sees it —
/// and keeps accepting only while the channel is quiet.
pub fn tcp_should_terminate(poll: &ShutdownPoll) -> (stop: bool)
    ensures
        stop == !(poll is Empty),
{
    match poll {
        ShutdownPoll::Sentinel => true,
        ShutdownPoll::Closed => true,
        ShutdownPoll::Empty => false,
    }
}

} // verus!
