use oobe_core::packet::{Boundary, RawPacket};

#[test]
fn round_trip_materialize_decode() {
    let mut b = Boundary::new();
    let h = b.materialize("engine.sync", "{\"task\":\"sync\"}");
    assert_ne!(h, 0);
    let pkt = b.decode(h).expect("a freshly materialized handle must decode");
    assert_eq!(pkt.id, "engine.sync");
    assert_eq!(pkt.data, "{\"task\":\"sync\"}");
    b.release(h);
}

#[test]
fn round_trip_empty_fields() {
    let mut b = Boundary::new();
    let h = b.materialize("", "");
    let pkt = b.decode(h).expect("empty fields are still a valid packet");
    assert_eq!(pkt.id, "");
    assert_eq!(pkt.data, "");
    b.release(h);
}

#[test]
fn decode_null_handle_yields_none() {
    let b = Boundary::new();
    assert!(b.decode(0).is_none());
}

#[test]
fn decode_null_id_field_yields_none() {
    let mut b = Boundary::new();
    let h = b.adopt(RawPacket { id: None, data: Some(String::from("payload")) });
    assert!(b.decode(h).is_none());
    b.release(h);
}

#[test]
fn decode_null_data_field_yields_none() {
    let mut b = Boundary::new();
    let h = b.adopt(RawPacket { id: Some(String::from("engine.sync")), data: None });
    assert!(b.decode(h).is_none());
    b.release(h);
}

#[test]
fn release_null_handle_is_noop() {
    let mut b = Boundary::new();
    b.release(0);
    b.release(0);
    let h = b.materialize("id", "data");
    b.release(0);
    let pkt = b.decode(h).expect("releasing the null handle must not touch live handles");
    assert_eq!(pkt.id, "id");
    b.release(h);
}

#[test]
fn released_handle_no_longer_decodes() {
    let mut b = Boundary::new();
    let h = b.materialize("id", "data");
    b.release(h);
    assert!(b.decode(h).is_none());
}

#[test]
fn handles_are_fresh_and_independent() {
    let mut b = Boundary::new();
    let h1 = b.materialize("first", "1");
    let h2 = b.materialize("second", "2");
    assert_ne!(h1, h2);
    b.release(h1);
    let pkt = b.decode(h2).expect("releasing one handle must not touch another");
    assert_eq!(pkt.id, "second");
    assert_eq!(pkt.data, "2");
    b.release(h2);
}

#[test]
fn decode_copies_do_not_alias() {
    let mut b = Boundary::new();
    let h = b.materialize("id", "data");
    let first = b.decode(h).unwrap();
    let second = b.decode(h).unwrap();
    assert_eq!(first.id, second.id);
    assert_eq!(first.data, second.data);
    drop(first);
    let third = b.decode(h).unwrap();
    assert_eq!(third.data, "data");
    b.release(h);
}
