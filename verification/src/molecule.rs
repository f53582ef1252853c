//! Molecules: atoms at positions in space, a total charge and a spin
//! multiplicity.
//!
//! A molecule is built step by step and may pass through states that are
//! not physical: adding an atom never fails. Whether the charge fits the
//! atoms is asked with `validate_charge`, when the caller wants to know.

use crate::error::CoreError;
use crate::units::Bohr;
use vstd::prelude::*;
use vstd::string::StringExecFns;

verus! {

/// Atomic number (Z) of an element.
#[derive(Debug, Clone, Copy, PartialEq, Eq, Hash, Structural)]
pub struct AtomicNumber(pub u8);

/// Single atom with position information.
#[derive(Debug)]
pub struct Atom {
    pub atomic_number: AtomicNumber,
    pub position: [Bohr; 3],
}

/// Molecular system consisting of atoms, charge and multiplicity.
///
/// The atoms keep the order in which they were added.
#[derive(Debug)]
pub struct Molecule {
    pub atoms: Vec<Atom>,
    pub total_charge: i32,
    pub multiplicity: u8,
}

/// The sum of the atomic numbers of `atoms`.
pub open spec fn nuclear_charge(atoms: Seq<Atom>) -> int
    decreases atoms.len(),
{
    if atoms.len() == 0 {
        0
    } else {
        nuclear_charge(atoms.drop_last()) + atoms.last().atomic_number.0
    }
}

/// Adding an atom raises the nuclear charge by its atomic number.
pub proof fn lemma_nuclear_charge_push(atoms: Seq<Atom>, atom: Atom)
    ensures
        nuclear_charge(atoms.push(atom)) == nuclear_charge(atoms) + atom.atomic_number.0,
{
    assert(atoms.push(atom).drop_last() =~= atoms);
}

/// Removing the atom at `index` lowers the nuclear charge by its atomic
/// number.
pub proof fn lemma_nuclear_charge_remove(atoms: Seq<Atom>, index: int)
    requires
        0 <= index < atoms.len(),
    ensures
        nuclear_charge(atoms.remove(index)) == nuclear_charge(atoms)
            - atoms[index].atomic_number.0,
    decreases atoms.len(),
{
    if index == atoms.len() - 1 {
        assert(atoms.remove(index) =~= atoms.drop_last());
    } else {
        lemma_nuclear_charge_remove(atoms.drop_last(), index);
        assert(atoms.remove(index).drop_last() =~= atoms.drop_last().remove(index));
        assert(atoms.remove(index).last() == atoms.last());
    }
}

impl Clone for Atom {
    fn clone(&self) -> (copy: Self)
        ensures
            copy == *self,
    {
        Atom { atomic_number: self.atomic_number, position: self.position }
    }
}

impl Clone for Molecule {
    fn clone(&self) -> (copy: Self)
        ensures
            copy.atoms@ == self.atoms@,
            copy.total_charge == self.total_charge,
            copy.multiplicity == self.multiplicity,
    {
        let atoms = self.atoms.clone();
        assert(atoms@ =~= self.atoms@);
        Molecule { atoms, total_charge: self.total_charge, multiplicity: self.multiplicity }
    }
}

impl Molecule {
    /// The number of electrons: the nuclear charge less the total charge.
    pub open spec fn electron_count(&self) -> int {
        nuclear_charge(self.atoms@) - self.total_charge
    }

    /// Create an empty molecule.
    pub fn new(total_charge: i32, multiplicity: u8) -> (m: Self)
        ensures
            m.atoms@ == Seq::<Atom>::empty(),
            m.total_charge == total_charge,
            m.multiplicity == multiplicity,
    {
        Self { atoms: Vec::new(), total_charge, multiplicity }
    }

    /// Add an atom to the molecule, behind those that it holds.
    pub fn add_atom(&mut self, atomic_number: AtomicNumber, position: [Bohr; 3])
        ensures
            final(self).atoms@ == old(self).atoms@.push(Atom { atomic_number, position }),
            final(self).total_charge == old(self).total_charge,
            final(self).multiplicity == old(self).multiplicity,
    {
        self.atoms.push(Atom { atomic_number, position });
    }

    /// Remove the atom at the specified index. The atoms before it stay
    /// where they are, and each atom behind it moves down by one place.
    ///
    /// An index that names no atom is an error, and the molecule is then
    /// left as it was.
    pub fn remove_atom(&mut self, index: usize) -> (r: Result<(), CoreError>)
        ensures
            r is Ok <==> index < old(self).atoms@.len(),
            r is Ok ==> {
                &&& final(self).atoms@ == old(self).atoms@.remove(index as int)
                &&& final(self).atoms@.len() == old(self).atoms@.len() - 1
                &&& forall|j: int|
                    0 <= j < index ==> final(self).atoms@[j] == old(self).atoms@[j]
                &&& forall|j: int|
                    index <= j < final(self).atoms@.len() ==> final(self).atoms@[j] == old(
                        self,
                    ).atoms@[j + 1]
                &&& final(self).total_charge == old(self).total_charge
                &&& final(self).multiplicity == old(self).multiplicity
            },
            r matches Err(e) ==> {
                &&& *final(self) == *old(self)
                &&& e is ValidationError
                &&& e.detail() == "atom index out of range"@
            },
    {
        if index < self.atoms.len() {
            self.atoms.remove(index);
            Ok(())
        } else {
            Err(CoreError::ValidationError(String::from_str("atom index out of range")))
        }
    }

    /// Validates the total charge against atomic numbers: a molecule cannot
    /// have given up more electrons than its nuclei hold.
    pub fn validate_charge(&self) -> (ok: bool)
        ensures
            ok == (self.electron_count() >= 0),
    {
        let mut z_sum: i128 = 0;
        let mut i: usize = 0;
        while i < self.atoms.len()
            invariant
                i <= self.atoms@.len(),
                z_sum == nuclear_charge(self.atoms@.take(i as int)),
                0 <= z_sum <= 255 * i,
            decreases self.atoms@.len() - i,
        {
            assert(self.atoms@.take(i + 1).drop_last() =~= self.atoms@.take(i as int));
            z_sum = z_sum + self.atoms[i].atomic_number.0 as i128;
            i = i + 1;
        }
        assert(self.atoms@.take(i as int) =~= self.atoms@);
        z_sum - self.total_charge as i128 >= 0
    }
}

} // verus!
