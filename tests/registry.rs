use loro_ids::{
    wire_type, ConversionRule, Counter, IdKind, Lamport, PeerID, Registry, SubID, WireConvert,
    WireType,
};

#[test]
fn declared_wire_types() {
    assert_eq!(wire_type(IdKind::Peer), WireType::U64);
    assert_eq!(wire_type(IdKind::Lamport), WireType::U32);
    assert_eq!(wire_type(IdKind::Counter), WireType::I32);
    assert_eq!(wire_type(IdKind::Subscription), WireType::U32);
}

#[test]
fn standard_registry_routes_every_kind() {
    let r = Registry::standard();
    assert_eq!(r.len(), 4);
    assert_eq!(r.lookup(IdKind::Peer), Some(WireType::U64));
    assert_eq!(r.lookup(IdKind::Lamport), Some(WireType::U32));
    assert_eq!(r.lookup(IdKind::Counter), Some(WireType::I32));
    assert_eq!(r.lookup(IdKind::Subscription), Some(WireType::U32));
}

#[test]
fn lookup_by_type() {
    let r = Registry::standard();
    assert_eq!(r.lookup_type::<PeerID>(), Some(WireType::U64));
    assert_eq!(r.lookup_type::<Lamport>(), Some(WireType::U32));
    assert_eq!(r.lookup_type::<Counter>(), Some(WireType::I32));
    assert_eq!(r.lookup_type::<SubID>(), Some(WireType::U32));
}

#[test]
fn empty_registry_routes_nothing() {
    let r = Registry::new();
    assert_eq!(r.len(), 0);
    assert!(!r.contains(IdKind::Subscription));
    assert_eq!(r.lookup(IdKind::Subscription), None);
    assert_eq!(r.lookup_type::<SubID>(), None);
}

#[test]
fn registering_only_the_subscription_kind() {
    let r = Registry::new().register(IdKind::Subscription);
    assert_eq!(r.len(), 1);
    assert!(r.contains(IdKind::Subscription));
    assert!(!r.contains(IdKind::Peer));
    assert_eq!(r.lookup(IdKind::Subscription), Some(WireType::U32));
    assert_eq!(r.lookup(IdKind::Peer), None);
}

#[test]
fn registering_a_kind_twice_keeps_one_rule() {
    let r = Registry::new().register(IdKind::Counter).register(IdKind::Counter);
    assert_eq!(r.len(), 1);
    assert_eq!(r.lookup(IdKind::Counter), Some(WireType::I32));
}

#[test]
fn rule_holds_kind_and_wire() {
    let rule = ConversionRule { kind: IdKind::Peer, wire: wire_type(IdKind::Peer) };
    assert_eq!(rule.kind, IdKind::Peer);
    assert_eq!(rule.wire, WireType::U64);
}
