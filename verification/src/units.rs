//! Length units. A length in Bohr radii and a length in Angstrom are two
//! types, so that one cannot be taken for the other.

use crate::binary64;
use vstd::prelude::*;
use vstd::std_specs::cmp::PartialEqSpecImpl;

verus! {

/// The length of one Bohr radius in Angstrom, 0.529177, as a binary64 bit
/// pattern. A length in Bohr times this factor is the length in Angstrom,
/// and a length in Angstrom divided by it is the length in Bohr.
pub const ANGSTROM_PER_BOHR: u64 = 0x3fe0_ef04_9a99_73da;

/// Length in Bohr radii: the bit pattern of a binary64 number.
#[derive(Debug, Clone, Copy)]
pub struct Bohr(pub u64);

/// Length in Angstrom: the bit pattern of a binary64 number.
#[derive(Debug, Clone, Copy)]
pub struct Angstrom(pub u64);

impl PartialEq for Bohr {
    /// Two lengths are equal when they are the same number.
    fn eq(&self, other: &Self) -> (r: bool) {
        binary64::equal(self.0, other.0)
    }
}

impl PartialEqSpecImpl for Bohr {
    open spec fn obeys_eq_spec() -> bool {
        true
    }

    open spec fn eq_spec(&self, other: &Self) -> bool {
        binary64::same_number(self.0, other.0)
    }
}

impl PartialEq for Angstrom {
    /// Two lengths are equal when they are the same number.
    fn eq(&self, other: &Self) -> (r: bool) {
        binary64::equal(self.0, other.0)
    }
}

impl PartialEqSpecImpl for Angstrom {
    open spec fn obeys_eq_spec() -> bool {
        true
    }

    open spec fn eq_spec(&self, other: &Self) -> bool {
        binary64::same_number(self.0, other.0)
    }
}

} // verus!
