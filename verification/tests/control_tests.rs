use peard::control::{dispatch, make_send_frame, DispatchAction, D_TYPE_LIST, D_TYPE_REFRESH,
    D_TYPE_SEND};
use peard::pear::{PeardConfig, PipeHeader};
use peard::registry::Registry;

fn config() -> PeardConfig {
    PeardConfig {
        flags: 0,
        interface_addr: [0, 0, 0, 0],
        interface_port: 17001,
        discover_recv_timeout: 5,
        device_id: 1235,
    }
}

fn header(d_type: u8, r_flag: u8, target_id: u32, p_len: u16) -> PipeHeader {
    PipeHeader { d_type, r_flag, target_id, p_len }
}

#[test]
fn list_request_lists_devices() {
    let reg = Registry::new();
    let a = dispatch(&header(D_TYPE_LIST, 0, 0, 0), &reg, &config());
    assert!(matches!(a, DispatchAction::ListDevices));
}

#[test]
fn refresh_request_triggers_discovery() {
    let reg = Registry::new();
    let a = dispatch(&header(D_TYPE_REFRESH, 0, 0, 0), &reg, &config());
    assert!(matches!(a, DispatchAction::Refresh));
}

#[test]
fn send_to_registered_target_connects_to_its_address() {
    let mut reg = Registry::new();
    reg.register_if_absent(42, [10, 0, 0, 5]);
    let a = dispatch(&header(D_TYPE_SEND, 0, 42, 16), &reg, &config());
    match a {
        DispatchAction::Send(addr, port, frame, p_len) => {
            assert_eq!(addr, [10, 0, 0, 5]);
            assert_eq!(port, 17001);
            assert_eq!(frame, make_send_frame(1235));
            assert_eq!(frame, [10, 0xD3, 0x04, 0, 0]);
            assert_eq!(p_len, 16);
        }
        _ => panic!("a registered target must be sent to"),
    }
}

#[test]
fn send_to_unregistered_target_touches_no_network() {
    let mut reg = Registry::new();
    reg.register_if_absent(1, [10, 0, 0, 1]);
    let a = dispatch(&header(D_TYPE_SEND, 0, 42, 16), &reg, &config());
    match a {
        DispatchAction::UnknownTarget(id) => assert_eq!(id, 42),
        _ => panic!("an unregistered target gets a warning, nothing else"),
    }
}

#[test]
fn response_flag_short_circuits_dispatch() {
    let mut reg = Registry::new();
    reg.register_if_absent(42, [10, 0, 0, 5]);
    let a = dispatch(&header(D_TYPE_SEND, 1, 42, 16), &reg, &config());
    assert!(matches!(a, DispatchAction::Ignore));
}

#[test]
fn unknown_request_type_is_ignored() {
    let reg = Registry::new();
    let a = dispatch(&header(77, 0, 0, 0), &reg, &config());
    assert!(matches!(a, DispatchAction::Ignore));
}
