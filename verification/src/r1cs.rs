//! The constraint model: an R1CS circuit as an ordered list of rank-1
//! constraints over indexed variables, and the evaluation of its linear
//! combinations against a witness (a full field-value assignment, one entry
//! per variable).

use vstd::prelude::*;
use bellman_ce::pairing::bn256::Fr;
use crate::field::fr_val;
use crate::field::fr_modulus;
use crate::field::fr_zero;
use crate::field::fr_add;
use crate::field::fr_mul;
use crate::field::fr_eq;

verus! {

/// One linear term: a field coefficient times the variable with this index.
#[derive(Clone, Copy)]
pub struct Term {
    pub coeff: Fr,
    pub var: usize,
}

/// One rank-1 constraint, asserting A * B = C for its three linear
/// combinations evaluated against a witness.
#[derive(Clone)]
pub struct Constraint {
    pub a: Vec<Term>,
    pub b: Vec<Term>,
    pub c: Vec<Term>,
}

/// An R1CS circuit. Variables are `0 .. num_variables`; the first
/// `num_inputs` of them are the public inputs (by convention variable 0
/// carries the constant one), the remaining `num_aux` are private.
/// Constraint order is significant for gate numbering, not for
/// satisfiability.
#[derive(Clone)]
pub struct R1cs {
    pub num_inputs: usize,
    pub num_aux: usize,
    pub num_variables: usize,
    pub constraints: Vec<Constraint>,
}

/// Every term of the linear combination names an existing variable.
pub open spec fn lc_wf(lc: Seq<Term>, num_variables: nat) -> bool {
    forall|i: int| 0 <= i < lc.len() ==> (#[trigger] lc[i]).var < num_variables
}

/// All three sides of the constraint name existing variables only.
pub open spec fn constraint_wf(c: Constraint, num_variables: nat) -> bool {
    &&& lc_wf(c.a@, num_variables)
    &&& lc_wf(c.b@, num_variables)
    &&& lc_wf(c.c@, num_variables)
}

impl R1cs {
    /// The circuit's internal invariant: the variable count partitions into
    /// inputs and auxiliaries, and every constraint stays within it.
    pub open spec fn wf(self) -> bool {
        &&& self.num_variables == self.num_inputs + self.num_aux
        &&& forall|i: int|
                0 <= i < self.constraints@.len() ==> constraint_wf(
                    #[trigger] self.constraints@[i],
                    self.num_variables as nat,
                )
    }

    /// An empty circuit over the given variable partition. `None` exactly
    /// when the total variable count does not fit the machine word.
    pub fn new(num_inputs: usize, num_aux: usize) -> (r: Option<R1cs>)
        ensures
            r is Some <==> num_inputs + num_aux <= usize::MAX,
            r matches Some(c) ==> {
                &&& c.wf()
                &&& c.num_inputs == num_inputs
                &&& c.num_aux == num_aux
                &&& c.num_variables == num_inputs + num_aux
                &&& c.constraints@.len() == 0
            },
    {
        match num_inputs.checked_add(num_aux) {
            Some(total) => Some(R1cs {
                num_inputs,
                num_aux,
                num_variables: total,
                constraints: Vec::new(),
            }),
            None => None,
        }
    }

    /// Appends one constraint. Rejected (circuit left unchanged) exactly
    /// when some term names a variable outside the circuit.
    pub fn add_constraint(&mut self, a: Vec<Term>, b: Vec<Term>, c: Vec<Term>) -> (ok: bool)
        requires
            old(self).wf(),
        ensures
            final(self).wf(),
            ok <==> {
                &&& lc_wf(a@, old(self).num_variables as nat)
                &&& lc_wf(b@, old(self).num_variables as nat)
                &&& lc_wf(c@, old(self).num_variables as nat)
            },
            ok ==> {
                &&& final(self).num_inputs == old(self).num_inputs
                &&& final(self).num_aux == old(self).num_aux
                &&& final(self).num_variables == old(self).num_variables
                &&& final(self).constraints@.len() == old(self).constraints@.len() + 1
                &&& final(self).constraints@.last().a@ == a@
                &&& final(self).constraints@.last().b@ == b@
                &&& final(self).constraints@.last().c@ == c@
                &&& final(self).constraints@.drop_last() == old(self).constraints@
            },
            !ok ==> *final(self) == *old(self),
    {
        let nv = self.num_variables;
        if lc_in_bounds(&a, nv) && lc_in_bounds(&b, nv) && lc_in_bounds(&c, nv) {
            let cons = Constraint { a, b, c };
            self.constraints.push(cons);
            proof {
                assert(self.constraints@.drop_last() =~= old(self).constraints@);
                assert forall|i: int| 0 <= i < self.constraints@.len() implies constraint_wf(
                    #[trigger] self.constraints@[i],
                    self.num_variables as nat,
                ) by {
                    if i < self.constraints@.len() - 1 {
                        assert(self.constraints@[i] == old(self).constraints@[i]);
                    }
                }
            }
            true
        } else {
            false
        }
    }
}

/// True exactly when every term of the linear combination names a variable
/// below `num_variables`.
pub fn lc_in_bounds(lc: &Vec<Term>, num_variables: usize) -> (r: bool)
    ensures
        r == lc_wf(lc@, num_variables as nat),
{
    let n = lc.len();
    for i in 0..n
        invariant
            n == lc@.len(),
            forall|j: int| 0 <= j < i ==> (#[trigger] lc@[j]).var < num_variables,
    {
        if lc[i].var >= num_variables {
            return false;
        }
    }
    true
}

/// The value of a linear combination under a witness: the sum, modulo the
/// field order, of each coefficient times the value assigned to its
/// variable.
pub open spec fn lc_value(lc: Seq<Term>, w: Seq<Fr>) -> nat
    decreases lc.len(),
{
    if lc.len() == 0 {
        0
    } else {
        (lc_value(lc.drop_last(), w)
            + (fr_val(lc.last().coeff) * fr_val(w[lc.last().var as int])) % fr_modulus())
            % fr_modulus()
    }
}

/// A rank-1 constraint holds under a witness when the product of its A and B
/// sides equals its C side in the field.
pub open spec fn constraint_satisfied(c: Constraint, w: Seq<Fr>) -> bool {
    (lc_value(c.a@, w) * lc_value(c.b@, w)) % fr_modulus() == lc_value(c.c@, w)
}

/// A witness satisfies a circuit when every constraint holds under it.
pub open spec fn witness_satisfies(r: R1cs, w: Seq<Fr>) -> bool {
    forall|i: int|
        0 <= i < r.constraints@.len() ==> constraint_satisfied(#[trigger] r.constraints@[i], w)
}

/// Evaluates one linear combination against a witness.
pub fn eval_lc(lc: &Vec<Term>, w: &Vec<Fr>) -> (r: Fr)
    requires
        lc_wf(lc@, w@.len() as nat),
    ensures
        fr_val(r) == lc_value(lc@, w@),
{
    let mut acc = fr_zero();
    let n = lc.len();
    assert(lc@.take(0int) =~= Seq::<Term>::empty());
    for i in 0..n
        invariant
            n == lc@.len(),
            lc_wf(lc@, w@.len() as nat),
            fr_val(acc) == lc_value(lc@.take(i as int), w@),
    {
        let t = fr_mul(&lc[i].coeff, &w[lc[i].var]);
        acc = fr_add(&acc, &t);
        proof {
            assert(lc@.take(i + 1).drop_last() =~= lc@.take(i as int));
            assert(lc@.take(i + 1).last() == lc@[i as int]);
        }
    }
    proof {
        assert(lc@.take(n as int) =~= lc@);
    }
    acc
}

/// Evaluates one constraint against a witness: does A * B = C hold in the
/// field?
pub fn eval_constraint(c: &Constraint, w: &Vec<Fr>) -> (r: bool)
    requires
        constraint_wf(*c, w@.len() as nat),
    ensures
        r == constraint_satisfied(*c, w@),
{
    let a_val = eval_lc(&c.a, w);
    let b_val = eval_lc(&c.b, w);
    let c_val = eval_lc(&c.c, w);
    let ab = fr_mul(&a_val, &b_val);
    fr_eq(&ab, &c_val)
}

} // verus!
