//! Replaying a transpilation hint against a witness. A side with more terms
//! than a gate holds is folded into a chain: each auxiliary linking variable
//! carries a partial sum of the side's terms, each extra gate ties one link
//! to the previous one, and the main gate multiplies the folded A and B
//! sides against the folded C side. Replay computes those linking values and
//! the main gate's verdict; the verdict always coincides with direct
//! evaluation of the original constraint, so the rewriting preserves
//! satisfiability exactly.

use vstd::prelude::*;
use bellman_ce::pairing::bn256::Fr;
use crate::field::fr_val;
use crate::field::fr_zero;
use crate::field::fr_add;
use crate::field::fr_mul;
use crate::field::fr_eq;
use crate::r1cs::Term;
use crate::r1cs::Constraint;
use crate::r1cs::lc_wf;
use crate::r1cs::constraint_wf;
use crate::r1cs::lc_value;
use crate::r1cs::constraint_satisfied;
use crate::r1cs::R1cs;
use crate::transpile::side_extra;
use crate::transpile::constraint_extra;
use crate::transpile::links_prefix;
use crate::transpile::spec_total_links;
use crate::transpile::spec_fits;

verus! {

/// The value the `j`-th linking variable of a folded side carries: the
/// partial sum of the side's first `j + 2` terms.
pub open spec fn link_value(lc: Seq<Term>, w: Seq<Fr>, j: int) -> nat {
    lc_value(lc.take(j + 2), w)
}

/// Folds one side of a constraint against a witness: hands back the side's
/// value and the values of its linking variables, one per term beyond the
/// width of a gate. The folded value is exactly the linear combination's
/// value, whatever the chain length.
pub fn replay_side(lc: &Vec<Term>, w: &Vec<Fr>) -> (r: (Fr, Vec<Fr>))
    requires
        lc_wf(lc@, w@.len() as nat),
    ensures
        fr_val(r.0) == lc_value(lc@, w@),
        r.1@.len() == side_extra(lc@),
        forall|j: int| 0 <= j < r.1@.len() ==> fr_val(#[trigger] r.1@[j]) == link_value(lc@, w@, j),
{
    let mut acc = fr_zero();
    let mut links: Vec<Fr> = Vec::new();
    let k = lc.len();
    assert(lc@.take(0int) =~= Seq::<Term>::empty());
    for i in 0..k
        invariant
            k == lc@.len(),
            lc_wf(lc@, w@.len() as nat),
            fr_val(acc) == lc_value(lc@.take(i as int), w@),
            links@.len() == (if i <= 1 {
                0int
            } else if i as int - 1 <= k as int - 2 {
                i as int - 1
            } else {
                k as int - 2
            }),
            forall|j: int|
                0 <= j < links@.len() ==> fr_val(#[trigger] links@[j]) == link_value(lc@, w@, j),
    {
        let t = fr_mul(&lc[i].coeff, &w[lc[i].var]);
        acc = fr_add(&acc, &t);
        proof {
            assert(lc@.take(i + 1).drop_last() =~= lc@.take(i as int));
            assert(lc@.take(i + 1).last() == lc@[i as int]);
        }
        if i >= 1 && i + 1 < k {
            links.push(acc);
        }
    }
    proof {
        assert(lc@.take(k as int) =~= lc@);
    }
    (acc, links)
}

/// The value of the `j`-th linking variable of one constraint's rewriting:
/// the A side's links come first, then B's, then C's, as the hints number
/// them.
pub open spec fn constraint_link_value(c: Constraint, w: Seq<Fr>, j: int) -> nat {
    if j < side_extra(c.a@) {
        link_value(c.a@, w, j)
    } else if j < side_extra(c.a@) + side_extra(c.b@) {
        link_value(c.b@, w, j - side_extra(c.a@))
    } else {
        link_value(c.c@, w, j - side_extra(c.a@) - side_extra(c.b@))
    }
}

/// Replays one constraint's rewriting against a witness: folds all three
/// sides, collecting the linking-variable values in hint order, and
/// evaluates the main gate. The verdict equals direct satisfaction of the
/// original constraint: the folded chain of gates accepts a witness exactly
/// when the constraint itself does.
pub fn replay_constraint(c: &Constraint, w: &Vec<Fr>) -> (r: (bool, Vec<Fr>))
    requires
        constraint_wf(*c, w@.len() as nat),
    ensures
        r.0 == constraint_satisfied(*c, w@),
        r.1@.len() == constraint_extra(*c),
        forall|j: int|
            0 <= j < r.1@.len() ==> fr_val(#[trigger] r.1@[j]) == constraint_link_value(
                *c,
                w@,
                j,
            ),
{
    let (a_val, mut links) = replay_side(&c.a, w);
    let (b_val, mut b_links) = replay_side(&c.b, w);
    let (c_val, mut c_links) = replay_side(&c.c, w);
    let ghost la = links@;
    let ghost lb = b_links@;
    let ghost lc_links = c_links@;
    links.append(&mut b_links);
    links.append(&mut c_links);
    proof {
        assert(links@ == la + lb + lc_links);
        assert forall|j: int| 0 <= j < links@.len() implies fr_val(
            #[trigger] links@[j],
        ) == constraint_link_value(*c, w@, j) by {
            if j < la.len() {
                assert(links@[j] == la[j]);
            } else if j < la.len() + lb.len() {
                assert(links@[j] == lb[j - la.len()]);
            } else {
                assert(links@[j] == lc_links[j - la.len() - lb.len()]);
            }
        }
    }
    let ab = fr_mul(&a_val, &b_val);
    let verdict = fr_eq(&ab, &c_val);
    (verdict, links)
}

/// The full gate-level assignment a witness induces: the witness itself,
/// followed by every linking variable's value in hint order — constraint
/// `i`'s links sit at the indices from `num_variables + links_prefix(i)` on,
/// exactly where the transpiler's hints place them. This is the assignment
/// the rewritten gates are evaluated against wherever the hints are
/// replayed.
pub fn extend_witness(r1cs: &R1cs, witness: &Vec<Fr>) -> (r: Vec<Fr>)
    requires
        r1cs.wf(),
        spec_fits(*r1cs),
        witness@.len() == r1cs.num_variables,
    ensures
        r@.len() == r1cs.num_variables + spec_total_links(*r1cs),
        r@.take(r1cs.num_variables as int) == witness@,
        forall|i: int, j: int|
            0 <= i < r1cs.constraints@.len() && 0 <= j < constraint_extra(
                r1cs.constraints@[i],
            ) ==> fr_val(
                r@[r1cs.num_variables + links_prefix(r1cs.constraints@, i) + j],
            ) == #[trigger] constraint_link_value(r1cs.constraints@[i], witness@, j),
{
    let ghost cs = r1cs.constraints@;
    let ghost nv = r1cs.num_variables as int;
    let mut out: Vec<Fr> = Vec::new();
    let wn = witness.len();
    for i in 0..wn
        invariant
            wn == witness@.len(),
            out@ =~= witness@.take(i as int),
    {
        out.push(witness[i]);
    }
    proof {
        assert(out@ =~= witness@);
    }
    let n = r1cs.constraints.len();
    for i in 0..n
        invariant
            n == cs.len(),
            cs == r1cs.constraints@,
            nv == r1cs.num_variables as int,
            r1cs.wf(),
            witness@.len() == r1cs.num_variables,
            out@.len() == nv + links_prefix(cs, i as int),
            out@.take(nv) == witness@,
            forall|k: int, j: int|
                0 <= k < i && 0 <= j < constraint_extra(cs[k]) ==> fr_val(
                    out@[nv + links_prefix(cs, k) + j],
                ) == #[trigger] constraint_link_value(cs[k], witness@, j),
    {
        let (_satisfied, mut links) = replay_constraint(&r1cs.constraints[i], witness);
        let ghost pre = out@;
        let ghost lseq = links@;
        out.append(&mut links);
        proof {
            assert(out@ == pre + lseq);
            assert(links_prefix(cs, i + 1) == links_prefix(cs, i as int) + constraint_extra(
                cs[i as int],
            ));
            crate::transpile::lemma_links_prefix_monotone(cs, i as int, i + 1);
            assert(out@.take(nv) =~= witness@);
            assert forall|k: int, j: int|
                0 <= k < i + 1 && 0 <= j < constraint_extra(cs[k]) implies fr_val(
                out@[nv + links_prefix(cs, k) + j],
            ) == #[trigger] constraint_link_value(cs[k], witness@, j) by {
                if k < i {
                    crate::transpile::lemma_links_prefix_monotone(cs, k + 1, i as int);
                    assert(links_prefix(cs, k + 1) == links_prefix(cs, k) + constraint_extra(
                        cs[k],
                    ));
                    assert(nv + links_prefix(cs, k) + j < pre.len());
                    assert(out@[nv + links_prefix(cs, k) + j] == pre[nv + links_prefix(cs, k)
                        + j]);
                } else {
                    assert(out@[nv + links_prefix(cs, k) + j] == lseq[j]);
                }
            }
        }
    }
    proof {
        assert(out@.take(nv) == witness@);
    }
    out
}

} // verus!
