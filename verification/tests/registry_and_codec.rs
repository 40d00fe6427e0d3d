//! Capability discovery and the payload codec.

use rt_worker::codec::{decode, encode, TypedPayload, WorkPayload};
use rt_worker::registry::{InterfaceTable, Registry};

fn worker_table() -> InterfaceTable {
    InterfaceTable { work_fn: 11, work_response_fn: 22, end_run_fn: Some(33) }
}

#[test]
fn lookup_finds_registered_capability() {
    let mut reg = Registry::new();
    assert!(reg.register(1, String::from("urn:example:worker"), worker_table()));
    let found = reg.lookup(1, &String::from("urn:example:worker"));
    assert_eq!(found, Some(worker_table()));
}

#[test]
fn missing_capability_is_not_supported() {
    let mut reg = Registry::new();
    assert!(reg.register(1, String::from("urn:example:worker"), worker_table()));
    // An identifier nobody registered: an explicit negative answer.
    assert_eq!(reg.lookup(1, &String::from("urn:example:state")), None);
    // The right identifier for the wrong component type is negative too.
    assert_eq!(reg.lookup(2, &String::from("urn:example:worker")), None);
    // An empty registry supports nothing.
    let empty = Registry::new();
    assert_eq!(empty.lookup(1, &String::from("urn:example:worker")), None);
}

#[test]
fn lookup_is_idempotent() {
    let mut reg = Registry::new();
    assert!(reg.register(1, String::from("urn:example:worker"), worker_table()));
    assert!(reg.register(2, String::from("urn:example:worker"), InterfaceTable {
        work_fn: 44,
        work_response_fn: 55,
        end_run_fn: None,
    }));
    let first = reg.lookup(1, &String::from("urn:example:worker"));
    let second = reg.lookup(1, &String::from("urn:example:worker"));
    let third = reg.lookup(1, &String::from("urn:example:worker"));
    // Identical entry-point descriptors every time.
    assert_eq!(first, second);
    assert_eq!(second, third);
    assert_eq!(first, Some(worker_table()));
}

#[test]
fn duplicate_registration_is_refused() {
    let mut reg = Registry::new();
    assert!(reg.register(1, String::from("urn:example:worker"), worker_table()));
    let other = InterfaceTable { work_fn: 99, work_response_fn: 98, end_run_fn: None };
    assert!(!reg.register(1, String::from("urn:example:worker"), other));
    // The original table still answers.
    assert_eq!(reg.lookup(1, &String::from("urn:example:worker")), Some(worker_table()));
}

#[test]
fn typed_payload_round_trips() {
    let p = TypedPayload { tag: 7, body: vec![1, 2, 3, 255] };
    let bytes = encode(&p);
    assert_eq!(bytes, vec![7, 1, 2, 3, 255]);
    let back = decode(&bytes).unwrap();
    assert_eq!(back, TypedPayload { tag: 7, body: vec![1, 2, 3, 255] });
}

#[test]
fn typed_payload_empty_body_round_trips() {
    let p = TypedPayload { tag: 0, body: vec![] };
    let bytes = encode(&p);
    assert_eq!(bytes, vec![0]);
    let back = decode(&bytes).unwrap();
    assert_eq!(back, TypedPayload { tag: 0, body: vec![] });
}

#[test]
fn empty_bytes_decode_to_nothing() {
    assert_eq!(decode(&vec![]), None);
}

#[test]
fn both_payload_forms_reach_the_wire() {
    let raw = WorkPayload::Raw(vec![1, 2, 3]);
    assert_eq!(raw.into_wire(), vec![1, 2, 3]);
    let typed = WorkPayload::Typed(TypedPayload { tag: 9, body: vec![4, 5] });
    assert_eq!(typed.into_wire(), vec![9, 4, 5]);
}

#[test]
fn decode_then_encode_reproduces_bytes() {
    let bytes = vec![9, 8, 7];
    let p = decode(&bytes).unwrap();
    assert_eq!(encode(&p), bytes);
}
