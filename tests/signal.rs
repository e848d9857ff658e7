use rinf::{
    pack_bytes, prepare_isolate_extern, restore_bytes, send_rust_signal_extern,
    send_rust_signal_real, IsolateRegistry, RinfError, Slot,
};

#[test]
fn empty_payload_becomes_sentinel_and_comes_back_empty() {
    let slot = pack_bytes(Vec::new());
    assert!(matches!(slot, Slot::Absent));
    assert_eq!(restore_bytes(slot), Vec::<u8>::new());
}

#[test]
fn filled_payload_round_trips() {
    let slot = pack_bytes(vec![1, 2, 3]);
    assert!(matches!(&slot, Slot::Filled(v) if v == &vec![1u8, 2, 3]));
    assert_eq!(restore_bytes(slot), vec![1, 2, 3]);
}

#[test]
fn send_before_registration_fails() {
    let registry = IsolateRegistry::new();
    let r = send_rust_signal_real(&registry, 7, vec![1], vec![2]);
    assert_eq!(r.unwrap_err(), RinfError::NoHostChannel);
    assert_eq!(registry, IsolateRegistry::new());
}

#[test]
fn later_registration_replaces_earlier() {
    let mut registry = IsolateRegistry::new();
    prepare_isolate_extern(&mut registry, 11);
    prepare_isolate_extern(&mut registry, 22);
    let post = send_rust_signal_real(&registry, 3, vec![9, 8], Vec::new()).unwrap();
    assert_eq!(post.port, 22);
    assert_eq!(post.message_id, 3);
    assert_eq!(restore_bytes(post.message.clone()), vec![9, 8]);
    assert!(matches!(post.binary, Slot::Absent));
}

#[test]
fn empty_message_and_filled_binary_are_told_apart() {
    let mut registry = IsolateRegistry::new();
    prepare_isolate_extern(&mut registry, -5);
    let post = send_rust_signal_real(&registry, -1, Vec::new(), vec![0]).unwrap();
    assert_eq!(post.port, -5);
    assert!(matches!(post.message, Slot::Absent));
    assert_eq!(restore_bytes(post.binary), vec![0]);
}

#[test]
fn web_post_flags_binary_presence() {
    let with = send_rust_signal_extern(4, vec![1, 2], vec![3]);
    assert_eq!(with.message_id, 4);
    assert_eq!(with.message_bytes, vec![1, 2]);
    assert!(with.binary_included);
    assert_eq!(with.binary_bytes, vec![3]);

    let without = send_rust_signal_extern(5, Vec::new(), Vec::new());
    assert!(!without.binary_included);
    assert!(without.message_bytes.is_empty());
    assert!(without.binary_bytes.is_empty());
}
