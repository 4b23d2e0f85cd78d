use vstd::prelude::*;
use crate::registry::IdKind;

verus! {

/// A newtype identifier that crosses the binding boundary as a single integer.
///
/// Every value of `Wire` stands for exactly one identifier and every
/// identifier for exactly one value of `Wire`: `wrap` and `unwrap` are total
/// and inverse to each other.
pub trait WireConvert: Sized {
    /// The primitive that carries the identifier across the boundary.
    type Wire;

    /// The kind under which the conversion is registered.
    spec fn id_kind() -> IdKind;

    /// The primitive that `v` is carried as.
    spec fn wire_of(v: Self) -> Self::Wire;

    /// The identifier that the primitive `w` stands for.
    spec fn from_wire(w: Self::Wire) -> Self;

    /// The identifier built from `w` is carried as `w`.
    proof fn lemma_wire_of_from_wire(w: Self::Wire)
        ensures
            Self::wire_of(Self::from_wire(w)) == w,
    ;

    /// Rebuilding an identifier from its primitive gives the identifier.
    proof fn lemma_from_wire_of(v: Self)
        ensures
            Self::from_wire(Self::wire_of(v)) == v,
    ;

    /// The kind under which the conversion is registered.
    fn kind() -> (r: IdKind)
        ensures
            r == Self::id_kind(),
    ;

    /// Builds the identifier carried by `w`; every primitive is accepted.
    fn wrap(w: Self::Wire) -> (r: Self)
        ensures
            r == Self::from_wire(w),
            Self::wire_of(r) == w,
    ;

    /// The primitive that carries `self`.
    fn unwrap(self) -> (r: Self::Wire)
        ensures
            r == Self::wire_of(self),
            Self::from_wire(r) == self,
    ;
}

/// Unwrapping what `wrap` built gives back the primitive it was built from.
pub proof fn unwrap_after_wrap<T: WireConvert>(p: T::Wire)
    ensures
        T::wire_of(T::from_wire(p)) == p,
{
    T::lemma_wire_of_from_wire(p);
}

/// Wrapping the primitive of an identifier gives back that identifier.
pub proof fn wrap_after_unwrap<T: WireConvert>(v: T)
    ensures
        T::from_wire(T::wire_of(v)) == v,
{
    T::lemma_from_wire_of(v);
}

/// Two primitives give the same identifier only if they are equal, and two
/// identifiers are carried by the same primitive only if they are equal.
pub proof fn conversion_is_bijective<T: WireConvert>(p: T::Wire, q: T::Wire, u: T, v: T)
    ensures
        T::from_wire(p) == T::from_wire(q) ==> p == q,
        T::wire_of(u) == T::wire_of(v) ==> u == v,
{
    T::lemma_wire_of_from_wire(p);
    T::lemma_wire_of_from_wire(q);
    T::lemma_from_wire_of(u);
    T::lemma_from_wire_of(v);
}

} // verus!
