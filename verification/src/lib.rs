//! Data model for quantum-chemical calculations: molecules, Gaussian basis
//! sets and the length units they are measured in.
//!
//! Building a molecule or a basis set never fails; `Molecule::validate_charge`
//! and `BasisSet::validate` tell, when asked, whether what was built can be
//! used. Lengths, exponents and coefficients are binary64 numbers, held by
//! their bit patterns: the library stores and compares them and leaves the
//! arithmetic to its callers.

pub mod basis;
pub mod binary64;
pub mod error;
pub mod molecule;
pub mod units;

pub use basis::{BasisSet, ContractedGaussian, PrimitiveGaussian};
pub use error::CoreError;
pub use molecule::{Atom, Molecule};
