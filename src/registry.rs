use vstd::prelude::*;
use crate::wire::WireConvert;

verus! {

/// The kinds of identifier that cross the binding boundary.
#[derive(Clone, Copy, Debug, PartialEq, Eq, Hash, Structural)]
pub enum IdKind {
    Peer,
    Lamport,
    Counter,
    Subscription,
}

/// The primitives that identifiers are carried as.
#[derive(Clone, Copy, Debug, PartialEq, Eq, Hash, Structural)]
pub enum WireType {
    U64,
    U32,
    I32,
}

/// The primitive declared for each kind.
pub open spec fn declared_wire(kind: IdKind) -> WireType {
    match kind {
        IdKind::Peer => WireType::U64,
        IdKind::Lamport => WireType::U32,
        IdKind::Counter => WireType::I32,
        IdKind::Subscription => WireType::U32,
    }
}

/// The primitive declared for `kind`.
pub fn wire_type(kind: IdKind) -> (r: WireType)
    ensures
        r == declared_wire(kind),
{
    match kind {
        IdKind::Peer => WireType::U64,
        IdKind::Lamport => WireType::U32,
        IdKind::Counter => WireType::I32,
        IdKind::Subscription => WireType::U32,
    }
}

/// Declares that identifiers of `kind` cross the boundary as `wire`.
#[derive(Clone, Copy, Debug, PartialEq, Eq, Hash, Structural)]
pub struct ConversionRule {
    pub kind: IdKind,
    pub wire: WireType,
}

/// The rule that each kind is registered with.
pub open spec fn rule_of(kind: IdKind) -> ConversionRule {
    ConversionRule { kind, wire: declared_wire(kind) }
}

/// The table of conversion rules handed to the binding generator: at most
/// one rule for each kind, each with the kind's declared primitive. It is
/// built once and only read afterwards.
pub struct Registry {
    rules: Vec<ConversionRule>,
}

impl Registry {
    /// The rules in the order in which they were registered.
    pub closed spec fn rules(&self) -> Seq<ConversionRule> {
        self.rules@
    }

    /// Whether a rule for `kind` is registered.
    pub open spec fn has_kind(&self, kind: IdKind) -> bool {
        exists|i: int| 0 <= i < self.rules().len() && #[trigger] self.rules()[i].kind == kind
    }

    #[verifier::type_invariant]
    closed spec fn well_formed(&self) -> bool {
        &&& forall|i: int| 0 <= i < self.rules@.len() ==> #[trigger] self.rules@[i] == rule_of(self.rules@[i].kind)
        &&& forall|i: int, j: int|
            0 <= i < j < self.rules@.len() ==> #[trigger] self.rules@[i].kind != #[trigger] self.rules@[j].kind
    }

    /// A table with no rules.
    pub fn new() -> (r: Registry)
        ensures
            r.rules() == Seq::<ConversionRule>::empty(),
    {
        Registry { rules: Vec::new() }
    }

    /// Whether a rule for `kind` is registered.
    pub fn contains(&self, kind: IdKind) -> (r: bool)
        ensures
            r == self.has_kind(kind),
    {
        let mut i: usize = 0;
        while i < self.rules.len()
            invariant
                0 <= i <= self.rules@.len(),
                forall|j: int| 0 <= j < i ==> self.rules@[j].kind != kind,
            decreases self.rules@.len() - i,
        {
            if self.rules[i].kind == kind {
                return true;
            }
            i = i + 1;
        }
        false
    }

    /// The table with the rule of `kind` added at the end; unchanged where
    /// `kind` is already registered.
    pub fn register(self, kind: IdKind) -> (r: Registry)
        ensures
            self.has_kind(kind) ==> r.rules() == self.rules(),
            !self.has_kind(kind) ==> r.rules() == self.rules().push(rule_of(kind)),
    {
        proof {
            use_type_invariant(&self);
        }
        if self.contains(kind) {
            return self;
        }
        let mut rules = self.rules;
        rules.push(ConversionRule { kind, wire: wire_type(kind) });
        Registry { rules }
    }

    /// The table with the rules of all four kinds, in the order peer,
    /// Lamport timestamp, operation counter, subscription.
    pub fn standard() -> (r: Registry)
        ensures
            r.rules() == seq![
                rule_of(IdKind::Peer),
                rule_of(IdKind::Lamport),
                rule_of(IdKind::Counter),
                rule_of(IdKind::Subscription),
            ],
            forall|kind: IdKind| #[trigger] r.has_kind(kind),
    {
        let r = Registry::new();
        let r = r.register(IdKind::Peer);
        let r = r.register(IdKind::Lamport);
        let r = r.register(IdKind::Counter);
        let r = r.register(IdKind::Subscription);
        proof {
            assert forall|kind: IdKind| #[trigger] r.has_kind(kind) by {
                let i: int = match kind {
                    IdKind::Peer => 0,
                    IdKind::Lamport => 1,
                    IdKind::Counter => 2,
                    IdKind::Subscription => 3,
                };
                assert(r.rules()[i].kind == kind);
            }
        }
        r
    }

    /// The number of registered rules.
    pub fn len(&self) -> (r: usize)
        ensures
            r == self.rules().len(),
    {
        self.rules.len()
    }

    /// The primitive that `kind` crosses the boundary as, if it is registered.
    pub fn lookup(&self, kind: IdKind) -> (r: Option<WireType>)
        ensures
            r == (if self.has_kind(kind) {
                Some(declared_wire(kind))
            } else {
                None::<WireType>
            }),
    {
        proof {
            use_type_invariant(self);
        }
        let mut i: usize = 0;
        while i < self.rules.len()
            invariant
                0 <= i <= self.rules@.len(),
                forall|j: int| 0 <= j < i ==> self.rules@[j].kind != kind,
                forall|j: int| 0 <= j < self.rules@.len() ==> #[trigger] self.rules@[j] == rule_of(self.rules@[j].kind),
            decreases self.rules@.len() - i,
        {
            if self.rules[i].kind == kind {
                return Some(self.rules[i].wire);
            }
            i = i + 1;
        }
        None
    }

    /// The primitive that identifiers of type `T` cross the boundary as, if
    /// their kind is registered.
    pub fn lookup_type<T: WireConvert>(&self) -> (r: Option<WireType>)
        ensures
            r == (if self.has_kind(T::id_kind()) {
                Some(declared_wire(T::id_kind()))
            } else {
                None::<WireType>
            }),
    {
        self.lookup(T::kind())
    }
}

} // verus!
