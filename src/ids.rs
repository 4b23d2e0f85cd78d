use vstd::prelude::*;
use crate::registry::IdKind;
use crate::wire::WireConvert;

verus! {

/// Identifies a peer (a replica) of a collaborative document.
#[derive(Clone, Copy, Debug, PartialEq, Eq, Hash, Structural)]
pub struct PeerID {
    value: loro_ffi::PeerID,
}

impl WireConvert for PeerID {
    type Wire = loro_ffi::PeerID;

    open spec fn id_kind() -> IdKind {
        IdKind::Peer
    }

    closed spec fn wire_of(v: PeerID) -> u64 {
        v.value
    }

    closed spec fn from_wire(w: u64) -> PeerID {
        PeerID { value: w }
    }

    proof fn lemma_wire_of_from_wire(w: u64) {
    }

    proof fn lemma_from_wire_of(v: PeerID) {
    }

    fn kind() -> (r: IdKind) {
        IdKind::Peer
    }

    fn wrap(w: loro_ffi::PeerID) -> (r: PeerID) {
        PeerID { value: w }
    }

    fn unwrap(self) -> (r: loro_ffi::PeerID) {
        self.value
    }
}

/// A Lamport timestamp, the logical clock that orders operations causally.
#[derive(Clone, Copy, Debug, PartialEq, Eq, Hash, Structural)]
pub struct Lamport {
    value: loro_ffi::Lamport,
}

impl WireConvert for Lamport {
    type Wire = loro_ffi::Lamport;

    open spec fn id_kind() -> IdKind {
        IdKind::Lamport
    }

    closed spec fn wire_of(v: Lamport) -> u32 {
        v.value
    }

    closed spec fn from_wire(w: u32) -> Lamport {
        Lamport { value: w }
    }

    proof fn lemma_wire_of_from_wire(w: u32) {
    }

    proof fn lemma_from_wire_of(v: Lamport) {
    }

    fn kind() -> (r: IdKind) {
        IdKind::Lamport
    }

    fn wrap(w: loro_ffi::Lamport) -> (r: Lamport) {
        Lamport { value: w }
    }

    fn unwrap(self) -> (r: loro_ffi::Lamport) {
        self.value
    }
}

/// The position of an operation in the log of the peer that made it.
#[derive(Clone, Copy, Debug, PartialEq, Eq, Hash, Structural)]
pub struct Counter {
    value: loro_ffi::Counter,
}

impl WireConvert for Counter {
    type Wire = loro_ffi::Counter;

    open spec fn id_kind() -> IdKind {
        IdKind::Counter
    }

    closed spec fn wire_of(v: Counter) -> i32 {
        v.value
    }

    closed spec fn from_wire(w: i32) -> Counter {
        Counter { value: w }
    }

    proof fn lemma_wire_of_from_wire(w: i32) {
    }

    proof fn lemma_from_wire_of(v: Counter) {
    }

    fn kind() -> (r: IdKind) {
        IdKind::Counter
    }

    fn wrap(w: loro_ffi::Counter) -> (r: Counter) {
        Counter { value: w }
    }

    fn unwrap(self) -> (r: loro_ffi::Counter) {
        self.value
    }
}

/// The handle of an event subscription, used to cancel it later.
#[derive(Clone, Copy, Debug, PartialEq, Eq, Hash, Structural)]
pub struct SubID {
    value: u32,
}

impl WireConvert for SubID {
    type Wire = u32;

    open spec fn id_kind() -> IdKind {
        IdKind::Subscription
    }

    closed spec fn wire_of(v: SubID) -> u32 {
        v.value
    }

    closed spec fn from_wire(w: u32) -> SubID {
        SubID { value: w }
    }

    proof fn lemma_wire_of_from_wire(w: u32) {
    }

    proof fn lemma_from_wire_of(v: SubID) {
    }

    fn kind() -> (r: IdKind) {
        IdKind::Subscription
    }

    fn wrap(w: u32) -> (r: SubID) {
        SubID { value: w }
    }

    fn unwrap(self) -> (r: u32) {
        self.value
    }
}

/// An operation counter survives the trip through its wire primitive with
/// sign and magnitude unchanged, negative values included.
pub proof fn counter_round_trip_keeps_sign(p: i32)
    ensures
        Counter::wire_of(Counter::from_wire(p)) == p,
        Counter::wire_of(Counter::from_wire(p)) < 0 <==> p < 0,
        Counter::wire_of(Counter::from_wire(p)) as int == p as int,
{
    Counter::lemma_wire_of_from_wire(p);
}

/// The four identifier types are registered under four different kinds, so
/// no rule can route a value of one type to the conversion of another.
pub proof fn kinds_are_distinct()
    ensures
        PeerID::id_kind() != Lamport::id_kind(),
        PeerID::id_kind() != Counter::id_kind(),
        PeerID::id_kind() != SubID::id_kind(),
        Lamport::id_kind() != Counter::id_kind(),
        Lamport::id_kind() != SubID::id_kind(),
        Counter::id_kind() != SubID::id_kind(),
{
}

} // verus!
