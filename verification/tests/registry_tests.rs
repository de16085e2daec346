use peard::registry::Registry;
use peard::tcp::handle_callback_frame;

#[test]
fn register_new_id_is_added() {
    let mut reg = Registry::new();
    assert!(reg.register_if_absent(1, [192, 168, 0, 2]));
    assert_eq!(reg.len(), 1);
    let d = reg.find(1).expect("registered id must be found");
    assert_eq!(d.id, 1);
    assert_eq!(d.ip_addr, [192, 168, 0, 2]);
    assert_eq!(d.name, [0u8; 20]);
    assert_eq!(d.name_len, 0);
    assert_eq!(d.pbl_key, 0);
}

#[test]
fn register_same_id_twice_keeps_first_ip() {
    let mut reg = Registry::new();
    assert!(reg.register_if_absent(7, [10, 0, 0, 1]));
    // A later claim of the same id, even from another address, is dropped.
    assert!(!reg.register_if_absent(7, [10, 0, 0, 2]));
    assert_eq!(reg.len(), 1);
    let d = reg.find(7).expect("id stays registered");
    assert_eq!(d.ip_addr, [10, 0, 0, 1]);
    let snapshot = reg.list();
    assert_eq!(snapshot.len(), 1);
    assert_eq!(snapshot[0].id, 7);
    assert_eq!(snapshot[0].ip_addr, [10, 0, 0, 1]);
}

#[test]
fn distinct_ids_all_registered() {
    let mut reg = Registry::new();
    for id in 0u32..50 {
        assert!(reg.register_if_absent(id, [10, 0, 0, (id % 250) as u8]));
    }
    assert_eq!(reg.len(), 50);
    for id in 0u32..50 {
        let d = reg.find(id).expect("every distinct id is registered");
        assert_eq!(d.id, id);
    }
    // The snapshot is stable once the writers are done.
    let a = reg.list();
    let b = reg.list();
    assert_eq!(a.len(), b.len());
    for (x, y) in a.iter().zip(b.iter()) {
        assert_eq!(x.id, y.id);
        assert_eq!(x.ip_addr, y.ip_addr);
    }
}

#[test]
fn find_unknown_id_is_none() {
    let mut reg = Registry::new();
    reg.register_if_absent(3, [127, 0, 0, 1]);
    assert!(reg.find(4).is_none());
}

#[test]
fn register_frame_from_peer() {
    // A frame {byte0 = 1, id = 42} from source 10.0.0.5 registers that peer.
    let mut reg = Registry::new();
    let frame: [u8; 10] = [1, 42, 0, 0, 0, 0, 0, 0, 0, 0];
    assert!(handle_callback_frame(&mut reg, &frame, [10, 0, 0, 5]));
    let d = reg.find(42).expect("frame registers its id");
    assert_eq!(d.id, 42);
    assert_eq!(d.ip_addr, [10, 0, 0, 5]);
}

#[test]
fn unknown_message_type_is_ignored() {
    let mut reg = Registry::new();
    let frame: [u8; 10] = [9, 42, 0, 0, 0, 0, 0, 0, 0, 0];
    assert!(!handle_callback_frame(&mut reg, &frame, [10, 0, 0, 5]));
    assert_eq!(reg.len(), 0);
    assert!(reg.find(42).is_none());
}

#[test]
fn late_answer_is_in_final_snapshot() {
    // A peer that only answers the second discovery round still ends up in
    // the final snapshot: registration is append-only, nothing is evicted.
    let mut reg = Registry::new();
    // First round: one peer answers.
    let first: [u8; 10] = [1, 11, 0, 0, 0, 0, 0, 0, 0, 0];
    handle_callback_frame(&mut reg, &first, [10, 0, 0, 1]);
    // Second round: the first peer answers again, and a slow peer appears.
    handle_callback_frame(&mut reg, &first, [10, 0, 0, 1]);
    let second: [u8; 10] = [1, 22, 0, 0, 0, 0, 0, 0, 0, 0];
    handle_callback_frame(&mut reg, &second, [10, 0, 0, 2]);
    let snapshot = reg.list();
    assert_eq!(snapshot.len(), 2);
    assert!(snapshot.iter().any(|d| d.id == 11 && d.ip_addr == [10, 0, 0, 1]));
    assert!(snapshot.iter().any(|d| d.id == 22 && d.ip_addr == [10, 0, 0, 2]));
}
