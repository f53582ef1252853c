//! Gaussian basis sets: for each element, the contracted Gaussian functions
//! that describe its electrons.
//!
//! A basis set is filled step by step, and filling it never fails: whether
//! what it holds is usable is asked with `validate`, when the caller wants
//! to know.
//!
//! The contracts speak of a basis set through its view, a map from each
//! element that is present to the primitives of each of its functions. The
//! laws at the end of the file say what a run of insertions builds.

use crate::binary64;
use crate::molecule::AtomicNumber;
use crate::units::Bohr;
use std::collections::HashMap;
use vstd::prelude::*;

verus! {

broadcast use vstd::std_specs::hash::group_hash_axioms;

/// Primitive Gaussian function.
///
/// The exponent and the coefficient are binary64 numbers, held by their bit
/// patterns.
#[derive(Debug)]
pub struct PrimitiveGaussian {
    pub exponent: u64,
    pub coefficient: u64,
    pub center: [Bohr; 3],
    pub angular: (u8, u8, u8),
}

/// Contracted Gaussian consisting of multiple primitives.
#[derive(Debug)]
pub struct ContractedGaussian {
    pub primitives: Vec<PrimitiveGaussian>,
}

/// Basis set containing contracted Gaussians indexed by atomic number.
///
/// An element that is present has at least one function.
#[derive(Debug)]
pub struct BasisSet {
    map: HashMap<u8, Vec<ContractedGaussian>>,
}

/// What a basis set holds: for each element that is present, the primitives
/// of each of its functions, in the order in which the functions came.
pub type Basis = Map<AtomicNumber, Seq<Seq<PrimitiveGaussian>>>;

/// Whether every primitive of a function has an exponent above zero.
pub open spec fn primitives_valid(primitives: Seq<PrimitiveGaussian>) -> bool {
    forall|j: int|
        0 <= j < primitives.len() ==> binary64::is_positive(#[trigger] primitives[j].exponent)
}

/// Whether every primitive of every function of every element has an
/// exponent above zero.
pub open spec fn basis_valid(basis: Basis) -> bool {
    forall|z: AtomicNumber, i: int|
        basis.contains_key(z) && 0 <= i < basis[z].len() ==> primitives_valid(
            #[trigger] basis[z][i],
        )
}

/// The basis with one more function for `z`, behind those that `z` has.
pub open spec fn with_function(
    basis: Basis,
    z: AtomicNumber,
    primitives: Seq<PrimitiveGaussian>,
) -> Basis {
    if basis.contains_key(z) {
        basis.insert(z, basis[z].push(primitives))
    } else {
        basis.insert(z, seq![primitives])
    }
}

/// The primitives of each function of a sequence.
pub open spec fn contractions(functions: Seq<ContractedGaussian>) -> Seq<Seq<PrimitiveGaussian>> {
    functions.map_values(|cg: ContractedGaussian| cg@)
}

impl View for ContractedGaussian {
    type V = Seq<PrimitiveGaussian>;

    open spec fn view(&self) -> Seq<PrimitiveGaussian> {
        self.primitives@
    }
}

impl Clone for PrimitiveGaussian {
    fn clone(&self) -> (copy: Self)
        ensures
            copy == *self,
    {
        PrimitiveGaussian {
            exponent: self.exponent,
            coefficient: self.coefficient,
            center: self.center,
            angular: self.angular,
        }
    }
}

impl Clone for ContractedGaussian {
    fn clone(&self) -> (copy: Self)
        ensures
            copy@ == self@,
    {
        let primitives = self.primitives.clone();
        assert(primitives@ =~= self.primitives@);
        ContractedGaussian { primitives }
    }
}

impl ContractedGaussian {
    /// Tells whether every primitive has an exponent above zero.
    pub fn validate(&self) -> (ok: bool)
        ensures
            ok == primitives_valid(self@),
    {
        let mut j: usize = 0;
        while j < self.primitives.len()
            invariant
                j <= self.primitives@.len(),
                primitives_valid(self@.take(j as int)),
            decreases self.primitives@.len() - j,
        {
            if !binary64::positive(self.primitives[j].exponent) {
                return false;
            }
            j = j + 1;
        }
        assert(self@.take(j as int) =~= self@);
        true
    }
}

/// Tells whether every function of a sequence is valid.
fn validate_all(functions: &Vec<ContractedGaussian>) -> (ok: bool)
    ensures
        ok == (forall|i: int|
            0 <= i < functions@.len() ==> primitives_valid(#[trigger] functions@[i]@)),
{
    let mut i: usize = 0;
    while i < functions.len()
        invariant
            i <= functions@.len(),
            forall|k: int| 0 <= k < i ==> primitives_valid(#[trigger] functions@[k]@),
        decreases functions@.len() - i,
    {
        if !functions[i].validate() {
            return false;
        }
        i = i + 1;
    }
    true
}

impl View for BasisSet {
    type V = Basis;

    closed spec fn view(&self) -> Basis {
        Map::new(
            |z: AtomicNumber| self.map@.contains_key(z.0),
            |z: AtomicNumber| contractions(self.map@[z.0]@),
        )
    }
}

impl Default for BasisSet {
    /// The basis set that holds no element.
    fn default() -> (basis: Self)
        ensures
            basis@ == Basis::empty(),
    {
        let basis = BasisSet { map: HashMap::new() };
        assert(basis@ =~= Basis::empty());
        basis
    }
}

impl BasisSet {
    #[verifier::type_invariant]
    spec fn well_formed(&self) -> bool {
        forall|k: u8| self.map@.contains_key(k) ==> (#[trigger] self.map@[k])@.len() > 0
    }

    /// Insert a basis for a given atomic number: the function comes behind
    /// those that the element has, and no other element changes.
    pub fn insert(&mut self, z: AtomicNumber, cg: ContractedGaussian)
        ensures
            final(self)@ == with_function(old(self)@, z, cg@),
    {
        proof {
            use_type_invariant(&*self);
        }
        let mut map: HashMap<u8, Vec<ContractedGaussian>> = HashMap::new();
        std::mem::swap(&mut map, &mut self.map);
        let ghost earlier = match map@.get(z.0) {
            Some(functions) => functions@,
            None => Seq::empty(),
        };
        map.entry(z.0).or_insert(Vec::new()).push(cg);
        self.map = map;
        proof {
            let target = with_function(old(self)@, z, cg@);
            assert(contractions(earlier.push(cg)) =~= contractions(earlier).push(cg@));
            assert(contractions(Seq::<ContractedGaussian>::empty()).push(cg@) =~= seq![cg@]);
            assert forall|k: AtomicNumber| self@.contains_key(k) == target.contains_key(k) by {
                assert(k.0 == z.0 <==> k == z);
            }
            assert forall|k: AtomicNumber| self@.contains_key(k) implies self@[k] == target[k] by {
                assert(k.0 == z.0 <==> k == z);
            }
            assert(self@ =~= target);
        }
    }

    /// Retrieve basis for an atom: its functions, or nothing where the
    /// element was never inserted.
    pub fn get(&self, z: AtomicNumber) -> (r: Option<&[ContractedGaussian]>)
        ensures
            r is Some <==> self@.contains_key(z),
            r matches Some(functions) ==> {
                &&& contractions(functions@) == self@[z]
                &&& functions@.len() == self@[z].len()
                &&& functions@.len() > 0
            },
    {
        proof {
            use_type_invariant(self);
        }
        match self.map.get(&z.0) {
            Some(functions) => Some(functions.as_slice()),
            None => None,
        }
    }

    /// Validate all primitives.
    pub fn validate(&self) -> (ok: bool)
        ensures
            ok == basis_valid(self@),
    {
        for functions in it: self.map.values()
            invariant
                it.seq().unref().to_set() == self.map@.values(),
                forall|n: int, i: int|
                    0 <= n < it.index() && 0 <= i < it.seq()[n]@.len() ==> primitives_valid(
                        #[trigger] it.seq()[n]@[i]@,
                    ),
                it.index() == it.seq().len() ==> basis_valid(self@),
        {
            if !validate_all(functions) {
                proof {
                    let n = it.index();
                    assert(it.seq().unref()[n] == *functions);
                    assert(it.seq().unref().to_set().contains(*functions));
                    let k = choose|k: u8| self.map@.contains_key(k) && self.map@[k] == *functions;
                    let i = choose|i: int|
                        0 <= i < functions@.len() && !primitives_valid(functions@[i]@);
                    assert(self@[AtomicNumber(k)][i] == functions@[i]@);
                }
                return false;
            }
            assert forall|z: AtomicNumber, i: int|
                it.index() + 1 == it.seq().len() && self@.contains_key(z) && 0 <= i
                    < self@[z].len() implies primitives_valid(#[trigger] self@[z][i]) by {
                let stored = self.map@[z.0];
                assert(it.seq().unref().to_set().contains(stored));
                let n = choose|n: int|
                    0 <= n < it.seq().unref().len() && it.seq().unref()[n] == stored;
                assert(it.seq()[n]@[i]@ == self@[z][i]);
            }
        }
        true
    }
}

/// Whether no exponent in the basis is a NaN.
pub open spec fn exponents_are_numbers(basis: Basis) -> bool {
    forall|z: AtomicNumber, i: int, j: int|
        basis.contains_key(z) && 0 <= i < basis[z].len() && 0 <= j < basis[z][i].len()
            ==> !binary64::is_nan(#[trigger] basis[z][i][j].exponent)
}

/// Whether some primitive in the basis has an exponent that is zero or
/// below it.
pub open spec fn has_exponent_at_most_zero(basis: Basis) -> bool {
    exists|z: AtomicNumber, i: int, j: int|
        basis.contains_key(z) && 0 <= i < basis[z].len() && 0 <= j < basis[z][i].len()
            && binary64::is_at_most_zero(#[trigger] basis[z][i][j].exponent)
}

/// After a function is inserted for `z`, an element is present exactly when
/// it was present before or is `z`. Every other element keeps its functions;
/// `z` keeps those it had, in their places, and has the new one behind them.
pub proof fn lemma_insert_presence(
    basis: Basis,
    z: AtomicNumber,
    primitives: Seq<PrimitiveGaussian>,
    other: AtomicNumber,
)
    ensures
        with_function(basis, z, primitives).contains_key(other) <==> other == z
            || basis.contains_key(other),
        other != z && basis.contains_key(other) ==> with_function(basis, z, primitives)[other]
            == basis[other],
        with_function(basis, z, primitives)[z].len() == (if basis.contains_key(z) {
            basis[z].len() + 1
        } else {
            1
        }),
        with_function(basis, z, primitives)[z].last() == primitives,
        basis.contains_key(z) ==> with_function(basis, z, primitives)[z].drop_last() == basis[z],
{
    if basis.contains_key(z) {
        assert(basis[z].push(primitives).drop_last() =~= basis[z]);
    }
}

/// A basis with one more function is valid exactly when the basis was valid
/// and the function is: one primitive whose exponent is not above zero makes
/// a valid basis invalid, and nothing that is inserted mends an invalid one.
pub proof fn lemma_insert_validity(
    basis: Basis,
    z: AtomicNumber,
    primitives: Seq<PrimitiveGaussian>,
)
    ensures
        basis_valid(with_function(basis, z, primitives)) <==> basis_valid(basis)
            && primitives_valid(primitives),
{
    let grown = with_function(basis, z, primitives);
    lemma_insert_presence(basis, z, primitives, z);
    if basis_valid(grown) {
        assert(primitives_valid(grown[z][grown[z].len() - 1]));
        assert forall|k: AtomicNumber, i: int|
            basis.contains_key(k) && 0 <= i < basis[k].len() implies primitives_valid(
            #[trigger] basis[k][i],
        ) by {
            assert(grown[k][i] == basis[k][i]);
        }
    }
    if basis_valid(basis) && primitives_valid(primitives) {
        assert forall|k: AtomicNumber, i: int|
            grown.contains_key(k) && 0 <= i < grown[k].len() implies primitives_valid(
            #[trigger] grown[k][i],
        ) by {
            if k == z && i == grown[z].len() - 1 {
            } else {
                assert(grown[k][i] == basis[k][i]);
            }
        }
    }
}

/// One insertion: the element and the primitives of the function.
pub type Insertion = (AtomicNumber, Seq<PrimitiveGaussian>);

/// The basis that a sequence of insertions builds, starting with no element.
pub open spec fn built(insertions: Seq<Insertion>) -> Basis
    decreases insertions.len(),
{
    if insertions.len() == 0 {
        Map::empty()
    } else {
        with_function(built(insertions.drop_last()), insertions.last().0, insertions.last().1)
    }
}

/// The functions that a sequence of insertions names for `z`, in the order
/// of the insertions.
pub open spec fn inserted_for(insertions: Seq<Insertion>, z: AtomicNumber) -> Seq<
    Seq<PrimitiveGaussian>,
>
    decreases insertions.len(),
{
    if insertions.len() == 0 {
        Seq::empty()
    } else if insertions.last().0 == z {
        inserted_for(insertions.drop_last(), z).push(insertions.last().1)
    } else {
        inserted_for(insertions.drop_last(), z)
    }
}

/// One more insertion is one more function in what was built.
pub proof fn lemma_built_push(
    insertions: Seq<Insertion>,
    z: AtomicNumber,
    primitives: Seq<PrimitiveGaussian>,
)
    ensures
        built(insertions.push((z, primitives))) == with_function(
            built(insertions),
            z,
            primitives,
        ),
{
    assert(insertions.push((z, primitives)).drop_last() =~= insertions);
}

/// For an element that is absent, no function was inserted.
pub proof fn lemma_absent_has_no_function(insertions: Seq<Insertion>, z: AtomicNumber)
    requires
        !built(insertions).contains_key(z),
    ensures
        inserted_for(insertions, z).len() == 0,
    decreases insertions.len(),
{
    if insertions.len() > 0 {
        let earlier = insertions.drop_last();
        let last = insertions.last();
        lemma_insert_presence(built(earlier), last.0, last.1, z);
        lemma_absent_has_no_function(earlier, z);
    }
}

/// An element is present exactly when some insertion named it: one that was
/// never inserted is absent. A present element has every function that was
/// inserted for it, in the order of the insertions, and so at least one.
pub proof fn lemma_built_contents(insertions: Seq<Insertion>, z: AtomicNumber)
    ensures
        built(insertions).contains_key(z) <==> exists|i: int|
            0 <= i < insertions.len() && (#[trigger] insertions[i]).0 == z,
        built(insertions).contains_key(z) ==> built(insertions)[z] == inserted_for(insertions, z),
        built(insertions).contains_key(z) ==> built(insertions)[z].len() > 0,
    decreases insertions.len(),
{
    if insertions.len() > 0 {
        let earlier = insertions.drop_last();
        let last = insertions.last();
        lemma_built_contents(earlier, z);
        lemma_insert_presence(built(earlier), last.0, last.1, z);
        if built(insertions).contains_key(z) {
            if z == last.0 {
                assert(insertions[insertions.len() - 1].0 == z);
            } else {
                let i = choose|i: int| 0 <= i < earlier.len() && (#[trigger] earlier[i]).0 == z;
                assert(insertions[i].0 == z);
            }
        }
        if exists|i: int| 0 <= i < insertions.len() && (#[trigger] insertions[i]).0 == z {
            let i = choose|i: int| 0 <= i < insertions.len() && (#[trigger] insertions[i]).0 == z;
            if i < earlier.len() {
                assert(earlier[i].0 == z);
            }
        }
        if z == last.0 && !built(earlier).contains_key(z) {
            lemma_absent_has_no_function(earlier, z);
            assert(inserted_for(earlier, z).push(last.1) =~= seq![last.1]);
        }
    }
}

/// What a sequence of insertions builds is valid exactly when every
/// inserted function is: one primitive whose exponent is not above zero,
/// wherever it was inserted, makes the whole invalid.
pub proof fn lemma_built_validity(insertions: Seq<Insertion>)
    ensures
        basis_valid(built(insertions)) <==> forall|i: int|
            0 <= i < insertions.len() ==> primitives_valid((#[trigger] insertions[i]).1),
    decreases insertions.len(),
{
    if insertions.len() > 0 {
        let earlier = insertions.drop_last();
        let last = insertions.last();
        lemma_built_validity(earlier);
        lemma_insert_validity(built(earlier), last.0, last.1);
        if basis_valid(built(insertions)) {
            assert forall|i: int| 0 <= i < insertions.len() implies primitives_valid(
                (#[trigger] insertions[i]).1,
            ) by {
                if i < earlier.len() {
                    assert(earlier[i] == insertions[i]);
                }
            }
        }
        if forall|i: int|
            0 <= i < insertions.len() ==> primitives_valid((#[trigger] insertions[i]).1) {
            assert forall|i: int| 0 <= i < earlier.len() implies primitives_valid(
                (#[trigger] earlier[i]).1,
            ) by {
                assert(earlier[i] == insertions[i]);
            }
            assert(primitives_valid(insertions[insertions.len() - 1].1));
        }
    }
}

/// Where no exponent is a NaN, a basis is invalid exactly when some
/// primitive in it has an exponent that is zero or below it.
pub proof fn lemma_invalid_iff_exponent_at_most_zero(basis: Basis)
    requires
        exponents_are_numbers(basis),
    ensures
        !basis_valid(basis) <==> has_exponent_at_most_zero(basis),
{
    if !basis_valid(basis) {
        let (z, i) = choose|z: AtomicNumber, i: int|
            basis.contains_key(z) && 0 <= i < basis[z].len() && !primitives_valid(
                #[trigger] basis[z][i],
            );
        let j = choose|j: int|
            0 <= j < basis[z][i].len() && !binary64::is_positive(
                #[trigger] basis[z][i][j].exponent,
            );
        binary64::lemma_sign_cases(basis[z][i][j].exponent);
        assert(binary64::is_at_most_zero(basis[z][i][j].exponent));
    }
    if has_exponent_at_most_zero(basis) {
        let (z, i, j) = choose|z: AtomicNumber, i: int, j: int|
            basis.contains_key(z) && 0 <= i < basis[z].len() && 0 <= j < basis[z][i].len()
                && binary64::is_at_most_zero(#[trigger] basis[z][i][j].exponent);
        binary64::lemma_sign_cases(basis[z][i][j].exponent);
        assert(!primitives_valid(basis[z][i]));
    }
}

} // verus!
