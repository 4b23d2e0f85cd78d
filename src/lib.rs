//! Conversions between the identifier types of a collaborative-editing engine
//! and the fixed-width integers that carry them across a foreign-language
//! boundary.
use vstd::prelude::*;

pub mod ids;
pub mod registry;
pub mod wire;

pub use ids::{Counter, Lamport, PeerID, SubID};
pub use registry::{wire_type, ConversionRule, IdKind, Registry, WireType};
pub use wire::WireConvert;

verus! {

} // verus!
