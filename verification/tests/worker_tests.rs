use peard::pear::{PeardConfig, PeardFlags};
use peard::tcp::{tcp_should_terminate, ShutdownPoll};
use peard::udp::{make_ack_frame, make_probe_frame, udp_step, UdpAction, UdpEvent, CMD_BROADCAST,
    CMD_TERMINATE};

fn config(flags: u8) -> PeardConfig {
    PeardConfig {
        flags,
        interface_addr: [0, 0, 0, 0],
        interface_port: 17001,
        discover_recv_timeout: 5,
        device_id: 1235,
    }
}

#[test]
fn probe_frame_is_fixed() {
    assert_eq!(make_probe_frame(), [0xF0, 0x9F, 0x8D, 0x90, 0x00, 1, 2, 3, 5, 0]);
}

#[test]
fn ack_frame_carries_id_little_endian() {
    assert_eq!(make_ack_frame(0x1234_5678), [1, 0x78, 0x56, 0x34, 0x12]);
    assert_eq!(make_ack_frame(1235), [1, 0xD3, 0x04, 0, 0]);
}

#[test]
fn broadcast_command_sends_probe() {
    let cfg = config(0);
    match udp_step(&UdpEvent::Command(CMD_BROADCAST), &cfg) {
        UdpAction::Broadcast(frame, port) => {
            assert_eq!(frame, make_probe_frame());
            assert_eq!(port, 17001);
        }
        _ => panic!("broadcast command must broadcast"),
    }
}

#[test]
fn debug_mode_offsets_broadcast_port() {
    let flag = PeardFlags::DebugMode.mask();
    assert_eq!(flag, 1);
    let cfg = config(flag);
    assert!(cfg.debug_enabled());
    match udp_step(&UdpEvent::Command(CMD_BROADCAST), &cfg) {
        UdpAction::Broadcast(_, port) => assert_eq!(port, 17002),
        _ => panic!("broadcast command must broadcast"),
    }
}

#[test]
fn terminate_command_stops_worker() {
    let cfg = config(0);
    assert!(matches!(udp_step(&UdpEvent::Command(CMD_TERMINATE), &cfg), UdpAction::Terminate));
    assert!(matches!(udp_step(&UdpEvent::ChannelClosed, &cfg), UdpAction::Terminate));
}

#[test]
fn quiet_channel_waits_for_traffic() {
    let cfg = config(0);
    assert!(matches!(udp_step(&UdpEvent::ChannelEmpty, &cfg), UdpAction::Receive));
    // Command values other than broadcast and terminate fall through to the
    // receive attempt, as unknown commands are not errors.
    assert!(matches!(udp_step(&UdpEvent::Command(7), &cfg), UdpAction::Receive));
}

#[test]
fn datagram_triggers_exactly_one_ack_to_source() {
    let cfg = config(0);
    // The probe's source port is rewritten to the daemon's callback port.
    match udp_step(&UdpEvent::Datagram([10, 0, 0, 5], 49152), &cfg) {
        UdpAction::Acknowledge(addr, port, frame) => {
            assert_eq!(addr, [10, 0, 0, 5]);
            assert_eq!(port, 17001);
            assert_eq!(frame, make_ack_frame(1235));
        }
        _ => panic!("a received probe must be acknowledged"),
    }
}

#[test]
fn shutdown_poll_stops_worker_at_once() {
    assert!(tcp_should_terminate(&ShutdownPoll::Sentinel));
    assert!(tcp_should_terminate(&ShutdownPoll::Closed));
    assert!(!tcp_should_terminate(&ShutdownPoll::Empty));
}
