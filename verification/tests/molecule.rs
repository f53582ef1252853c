use rust_core::molecule::AtomicNumber;
use rust_core::units::{Bohr, ANGSTROM_PER_BOHR};
use rust_core::{Atom, CoreError, Molecule};
use std::collections::HashSet;

fn at(x: f64, y: f64, z: f64) -> [Bohr; 3] {
    [Bohr(x.to_bits()), Bohr(y.to_bits()), Bohr(z.to_bits())]
}

fn coordinates(atom: &Atom) -> [f64; 3] {
    [
        f64::from_bits(atom.position[0].0),
        f64::from_bits(atom.position[1].0),
        f64::from_bits(atom.position[2].0),
    ]
}

fn numbers(molecule: &Molecule) -> Vec<u8> {
    molecule.atoms.iter().map(|a| a.atomic_number.0).collect()
}

#[test]
fn new_molecule_is_empty() {
    let m = Molecule::new(-1, 2);
    assert!(m.atoms.is_empty());
    assert_eq!(m.total_charge, -1);
    assert_eq!(m.multiplicity, 2);
}

#[test]
fn hydrogen_molecule_keeps_both_atoms_in_order() {
    let mut m = Molecule::new(0, 1);
    m.add_atom(AtomicNumber(1), at(0.0, 0.0, 0.0));
    m.add_atom(AtomicNumber(1), at(1.4, 0.0, 0.0));
    assert_eq!(m.atoms.len(), 2);
    assert_eq!(coordinates(&m.atoms[0]), [0.0, 0.0, 0.0]);
    assert_eq!(coordinates(&m.atoms[1]), [1.4, 0.0, 0.0]);
    assert_eq!(m.total_charge, 0);
    assert_eq!(m.multiplicity, 1);
    assert!(m.validate_charge());
}

#[test]
fn hydrogen_molecule_center_and_angstrom_coordinates() {
    let mut m = Molecule::new(0, 1);
    m.add_atom(AtomicNumber(1), at(0.0, 0.0, 0.0));
    m.add_atom(AtomicNumber(1), at(1.4, 0.0, 0.0));
    let n = m.atoms.len() as f64;
    let mut mean = [0.0f64; 3];
    for atom in &m.atoms {
        for (sum, x) in mean.iter_mut().zip(coordinates(atom)) {
            *sum += x / n;
        }
    }
    assert_eq!(mean, [0.7, 0.0, 0.0]);
    let factor = f64::from_bits(ANGSTROM_PER_BOHR);
    let first = coordinates(&m.atoms[0]).map(|x| x * factor);
    let second = coordinates(&m.atoms[1]).map(|x| x * factor);
    assert_eq!(first, [0.0, 0.0, 0.0]);
    assert!((second[0] - 0.74084).abs() < 1.0e-5);
    assert_eq!(second[0], 1.4 * 0.529177);
    assert_eq!(second[1], 0.0);
    assert_eq!(second[2], 0.0);
}

#[test]
fn add_atom_appends_behind_the_others() {
    let mut m = Molecule::new(0, 1);
    m.add_atom(AtomicNumber(8), at(0.0, 0.0, 0.0));
    m.add_atom(AtomicNumber(1), at(1.0, 2.0, 3.0));
    m.add_atom(AtomicNumber(6), at(-1.5, 0.25, 7.0));
    assert_eq!(numbers(&m), vec![8, 1, 6]);
    assert_eq!(coordinates(&m.atoms[1]), [1.0, 2.0, 3.0]);
    assert_eq!(coordinates(&m.atoms[2]), [-1.5, 0.25, 7.0]);
}

#[test]
fn oxide_anion_has_a_valid_charge() {
    let mut m = Molecule::new(-2, 1);
    m.add_atom(AtomicNumber(8), at(0.0, 0.0, 0.0));
    assert!(m.validate_charge());
}

#[test]
fn charge_above_the_nuclear_charge_is_invalid() {
    let mut m = Molecule::new(10, 1);
    m.add_atom(AtomicNumber(8), at(0.0, 0.0, 0.0));
    assert!(!m.validate_charge());
}

#[test]
fn charge_equal_to_the_nuclear_charge_is_valid() {
    let mut m = Molecule::new(8, 1);
    m.add_atom(AtomicNumber(8), at(0.0, 0.0, 0.0));
    assert!(m.validate_charge());
    m.total_charge = 9;
    assert!(!m.validate_charge());
}

#[test]
fn validate_charge_sums_over_all_atoms() {
    let mut m = Molecule::new(10, 1);
    m.add_atom(AtomicNumber(8), at(0.0, 0.0, 0.0));
    m.add_atom(AtomicNumber(1), at(1.0, 0.0, 0.0));
    assert!(!m.validate_charge());
    m.add_atom(AtomicNumber(1), at(0.0, 1.0, 0.0));
    assert!(m.validate_charge());
}

#[test]
fn empty_molecule_charge() {
    assert!(Molecule::new(0, 1).validate_charge());
    assert!(Molecule::new(-3, 1).validate_charge());
    assert!(!Molecule::new(1, 1).validate_charge());
}

#[test]
fn validate_charge_at_the_limits_of_the_charge() {
    let mut m = Molecule::new(i32::MIN, 1);
    assert!(m.validate_charge());
    m.add_atom(AtomicNumber(255), at(0.0, 0.0, 0.0));
    assert!(m.validate_charge());
    m.total_charge = i32::MAX;
    assert!(!m.validate_charge());
    m.total_charge = 255;
    assert!(m.validate_charge());
    m.total_charge = 256;
    assert!(!m.validate_charge());
}

#[test]
fn remove_atom_shifts_the_later_atoms_down() {
    let mut m = Molecule::new(0, 1);
    m.add_atom(AtomicNumber(1), at(0.0, 0.0, 0.0));
    m.add_atom(AtomicNumber(2), at(1.0, 0.0, 0.0));
    m.add_atom(AtomicNumber(3), at(2.0, 0.0, 0.0));
    m.add_atom(AtomicNumber(4), at(3.0, 0.0, 0.0));
    assert!(m.remove_atom(1).is_ok());
    assert_eq!(numbers(&m), vec![1, 3, 4]);
    assert_eq!(coordinates(&m.atoms[1]), [2.0, 0.0, 0.0]);
    assert_eq!(coordinates(&m.atoms[2]), [3.0, 0.0, 0.0]);
    assert!(m.remove_atom(2).is_ok());
    assert_eq!(numbers(&m), vec![1, 3]);
    assert!(m.remove_atom(0).is_ok());
    assert_eq!(numbers(&m), vec![3]);
    assert_eq!(m.total_charge, 0);
    assert_eq!(m.multiplicity, 1);
}

#[test]
fn remove_atom_out_of_range_is_an_error() {
    let mut m = Molecule::new(1, 3);
    m.add_atom(AtomicNumber(6), at(0.5, 0.0, 0.0));
    m.add_atom(AtomicNumber(8), at(2.5, 0.0, 0.0));
    let r = m.remove_atom(2);
    match r {
        Err(CoreError::ValidationError(message)) => {
            assert_eq!(message, "atom index out of range")
        }
        _ => panic!("an index behind the last atom must be refused"),
    }
    assert_eq!(numbers(&m), vec![6, 8]);
    assert_eq!(coordinates(&m.atoms[0]), [0.5, 0.0, 0.0]);
    assert_eq!(coordinates(&m.atoms[1]), [2.5, 0.0, 0.0]);
    assert_eq!(m.total_charge, 1);
    assert_eq!(m.multiplicity, 3);
    assert!(m.remove_atom(usize::MAX).is_err());
    assert_eq!(numbers(&m), vec![6, 8]);
}

#[test]
fn remove_atom_from_an_empty_molecule_is_an_error() {
    let mut m = Molecule::new(0, 1);
    assert!(m.remove_atom(0).is_err());
    assert!(m.atoms.is_empty());
}

#[test]
fn remove_then_add_replaces_an_atom() {
    let mut m = Molecule::new(0, 1);
    m.add_atom(AtomicNumber(1), at(0.0, 0.0, 0.0));
    m.add_atom(AtomicNumber(9), at(1.7, 0.0, 0.0));
    assert!(m.remove_atom(0).is_ok());
    m.add_atom(AtomicNumber(17), at(0.0, 0.0, 0.0));
    assert_eq!(numbers(&m), vec![9, 17]);
    assert!(m.validate_charge());
}

#[test]
fn a_clone_holds_the_same_atoms() {
    let mut m = Molecule::new(-1, 2);
    m.add_atom(AtomicNumber(7), at(0.1, 0.2, 0.3));
    m.add_atom(AtomicNumber(1), at(1.1, 1.2, 1.3));
    let copy = m.clone();
    m.add_atom(AtomicNumber(1), at(2.0, 2.0, 2.0));
    assert_eq!(numbers(&copy), vec![7, 1]);
    assert_eq!(coordinates(&copy.atoms[0]), [0.1, 0.2, 0.3]);
    assert_eq!(coordinates(&copy.atoms[1]), [1.1, 1.2, 1.3]);
    assert_eq!(copy.total_charge, -1);
    assert_eq!(copy.multiplicity, 2);
    let atom = copy.atoms[1].clone();
    assert_eq!(atom.atomic_number, AtomicNumber(1));
    assert_eq!(coordinates(&atom), [1.1, 1.2, 1.3]);
}

#[test]
fn atomic_numbers_compare_by_value() {
    assert_eq!(AtomicNumber(6), AtomicNumber(6));
    assert_ne!(AtomicNumber(6), AtomicNumber(7));
    let z = AtomicNumber(26);
    let copy = z;
    assert_eq!(z, copy);
}

#[test]
fn atomic_numbers_hash_by_value() {
    let mut seen = HashSet::new();
    assert!(seen.insert(AtomicNumber(1)));
    assert!(seen.insert(AtomicNumber(8)));
    assert!(!seen.insert(AtomicNumber(1)));
    assert!(seen.contains(&AtomicNumber(8)));
    assert!(!seen.contains(&AtomicNumber(6)));
    assert_eq!(seen.len(), 2);
}
