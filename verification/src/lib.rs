//! A powerset abstract domain: the lattice of sets of elements, extended with
//! an explicit least and greatest element, over any set representation that
//! offers subset, union and intersection.
//!
//! - [`set_ops`] holds the capabilities that a set representation offers.
//! - [`powerset`] holds the domain itself, [`PowersetLattice`].
//! - [`model`] holds the mathematical lattice that the domain denotes, and
//!   [`laws`] its algebra.
//! - [`hash_set`] makes the hash sets of the standard library a set
//!   representation.

pub mod hash_set;
pub mod laws;
pub mod model;
pub mod powerset;
mod seq_sets;
pub mod set_ops;

pub use hash_set::{HashKey, HashSetAbstractDomain};
pub use model::Powerset;
pub use powerset::PowersetLattice;
pub use set_ops::{SetAbstractDomainOps, SetElementOps, SetFromElements};
