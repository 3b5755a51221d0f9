//! The transpiler: rewrites each R1CS constraint into one or more
//! fixed-width custom gates, in declaration order, and emits one replayable
//! hint per constraint. A side of a constraint with at most two linear terms
//! fits a gate directly; each further term costs one extra gate tied through
//! one fresh auxiliary linking variable. Linking variables are numbered
//! consecutively after the circuit's own variables, so the whole mapping is
//! a function of the constraint list alone.

use vstd::prelude::*;
use crate::r1cs::Term;
use crate::r1cs::Constraint;
use crate::r1cs::R1cs;
use crate::plonk::PlonkError;

verus! {

/// How one R1CS constraint was rewritten into the custom-gate system.
#[derive(Clone, Copy, Debug, PartialEq, Eq, Structural)]
pub enum HintVariant {
    /// Directly representable: a single gate, no extra variables.
    SingleGate,
    /// One term beyond a gate's width: one extra gate, tied through the one
    /// auxiliary linking variable with this index.
    LinkedGate { link_var: usize },
    /// Several terms beyond a gate's width: a chain of this many extra
    /// gates, tied through as many consecutive linking variables starting at
    /// this index.
    ChainedGates { extra_gates: usize, first_link_var: usize },
}

/// One transpilation hint: the replayable record of how the constraint with
/// this index was rewritten. Produced once per circuit shape and reused by
/// setup, witness checking, and proving.
#[derive(Clone, Copy, Debug, PartialEq, Eq, Structural)]
pub struct TranspilationHint {
    pub constraint_index: usize,
    pub variant: HintVariant,
}

/// Per-constraint statistics of a transpilation pass: the constraint's index
/// and how many gates its rewriting costs in all. The analyser records one
/// entry per nontrivial constraint, that is, per constraint whose rewriting
/// needs extra gates.
#[derive(Clone, Copy, Debug, PartialEq, Eq, Structural)]
pub struct ConstraintStat {
    pub constraint_index: usize,
    pub num_gates: usize,
}

/// Gates a single side costs beyond the one main gate: one per linear term
/// past the two a fixed-width gate can hold.
pub open spec fn side_extra(lc: Seq<Term>) -> nat {
    if lc.len() > 2 {
        (lc.len() - 2) as nat
    } else {
        0
    }
}

/// Extra gates (equivalently, linking variables) one constraint needs.
pub open spec fn constraint_extra(c: Constraint) -> nat {
    side_extra(c.a@) + side_extra(c.b@) + side_extra(c.c@)
}

/// Linking variables consumed by the first `i` constraints.
pub open spec fn links_prefix(cs: Seq<Constraint>, i: int) -> nat
    decreases i,
{
    if i <= 0 {
        0
    } else {
        links_prefix(cs, i - 1) + constraint_extra(cs[i - 1])
    }
}

/// Linking variables the whole circuit needs.
pub open spec fn spec_total_links(r: R1cs) -> nat {
    links_prefix(r.constraints@, r.constraints@.len() as int)
}

/// Total fixed-width gates the transpiled circuit needs: one main gate per
/// constraint plus every extra gate.
pub open spec fn spec_gate_count(r: R1cs) -> nat {
    r.constraints@.len() + spec_total_links(r)
}

/// The hint the transpiler emits for constraint `i`: its linking variables,
/// if any, start right after the circuit's own variables and the links of
/// all earlier constraints.
pub open spec fn spec_hint_at(cs: Seq<Constraint>, num_variables: nat, i: int) -> TranspilationHint {
    let e = constraint_extra(cs[i]);
    let first = (num_variables + links_prefix(cs, i)) as usize;
    TranspilationHint {
        constraint_index: i as usize,
        variant: if e == 0 {
            HintVariant::SingleGate
        } else if e == 1 {
            HintVariant::LinkedGate { link_var: first }
        } else {
            HintVariant::ChainedGates { extra_gates: e as usize, first_link_var: first }
        },
    }
}

/// The full hint sequence for a circuit: one entry per constraint, in
/// declaration order.
pub open spec fn spec_hints(r: R1cs) -> Seq<TranspilationHint> {
    Seq::new(
        r.constraints@.len(),
        |i: int| spec_hint_at(r.constraints@, r.num_variables as nat, i),
    )
}

/// Nontrivial constraints among the first `i`: those whose rewriting needs
/// extra gates.
pub open spec fn nontrivial_prefix(cs: Seq<Constraint>, i: int) -> nat
    decreases i,
{
    if i <= 0 {
        0
    } else {
        nontrivial_prefix(cs, i - 1) + if constraint_extra(cs[i - 1]) > 0 {
            1nat
        } else {
            0nat
        }
    }
}

/// The statistics entries for the first `i` constraints: one per nontrivial
/// constraint, in declaration order.
pub open spec fn stats_prefix(cs: Seq<Constraint>, i: int) -> Seq<ConstraintStat>
    decreases i,
{
    if i <= 0 {
        Seq::empty()
    } else {
        let rest = stats_prefix(cs, i - 1);
        let e = constraint_extra(cs[i - 1]);
        if e == 0 {
            rest
        } else {
            rest.push(
                ConstraintStat {
                    constraint_index: (i - 1) as usize,
                    num_gates: (1 + e) as usize,
                },
            )
        }
    }
}

/// The machine limit on transpilation: the number of gates and the index of the
/// last linking variable must both fit a machine word.
pub open spec fn spec_fits(r: R1cs) -> bool {
    &&& r.constraints@.len() + spec_total_links(r) <= usize::MAX
    &&& r.num_variables + spec_total_links(r) <= usize::MAX
}

/// Earlier prefixes consume no more linking variables than later ones.
pub proof fn lemma_links_prefix_monotone(cs: Seq<Constraint>, i: int, j: int)
    requires
        0 <= i <= j,
    ensures
        links_prefix(cs, i) <= links_prefix(cs, j),
    decreases j,
{
    if i < j {
        lemma_links_prefix_monotone(cs, i, j - 1);
    }
}

/// Law: transpilation is deterministic. The hints and the number of gates are a
/// function of the circuit's constraint list alone, so transpiling the same
/// circuit twice yields identical hints and an identical gate count.
pub proof fn lemma_transpile_deterministic(
    r: R1cs,
    gates1: usize,
    hints1: Seq<TranspilationHint>,
    gates2: usize,
    hints2: Seq<TranspilationHint>,
)
    requires
        gates1 == spec_gate_count(r),
        hints1 == spec_hints(r),
        gates2 == spec_gate_count(r),
        hints2 == spec_hints(r),
    ensures
        gates1 == gates2,
        hints1 == hints2,
{
}

/// Extra gates one side of a constraint costs.
pub(crate) fn side_extra_exec(lc: &Vec<Term>) -> (r: usize)
    ensures
        r == side_extra(lc@),
{
    let n = lc.len();
    if n > 2 {
        n - 2
    } else {
        0
    }
}

/// Extra gates one constraint costs; `None` exactly when even that count
/// overflows a machine word.
fn constraint_extra_exec(c: &Constraint) -> (r: Option<usize>)
    ensures
        r is Some <==> constraint_extra(*c) <= usize::MAX,
        r matches Some(e) ==> e == constraint_extra(*c),
{
    let ea = side_extra_exec(&c.a);
    let eb = side_extra_exec(&c.b);
    let ec = side_extra_exec(&c.c);
    match ea.checked_add(eb) {
        Some(s) => s.checked_add(ec),
        None => None,
    }
}

/// Transpiles a circuit: emits the total gate count and one hint per
/// constraint, exactly the sequence `spec_hints` describes. Fails (with a
/// configuration error, and only then) when the number of gates or the linking
/// variable indices would not fit a machine word.
pub fn transpile_with_gates_count(r: &R1cs) -> (res: Result<(usize, Vec<TranspilationHint>), PlonkError>)
    requires
        r.wf(),
    ensures
        res is Ok <==> spec_fits(*r),
        res matches Ok(p) ==> p.0 == spec_gate_count(*r) && p.1@ == spec_hints(*r),
        res matches Err(e) ==> e == PlonkError::CircuitTooLarge,
{
    let n = r.constraints.len();
    let mut links: usize = 0;
    let mut hints: Vec<TranspilationHint> = Vec::new();
    for i in 0..n
        invariant
            n == r.constraints@.len(),
            links == links_prefix(r.constraints@, i as int),
            hints@.len() == i,
            forall|j: int|
                0 <= j < i ==> hints@[j] == spec_hint_at(
                    r.constraints@,
                    r.num_variables as nat,
                    j,
                ),
    {
        let ghost cs = r.constraints@;
        let e = match constraint_extra_exec(&r.constraints[i]) {
            Some(e) => e,
            None => {
                proof {
                    lemma_links_prefix_monotone(cs, i + 1, n as int);
                }
                return Err(PlonkError::CircuitTooLarge);
            },
        };
        let variant = if e == 0 {
            HintVariant::SingleGate
        } else {
            let first = match r.num_variables.checked_add(links) {
                Some(v) => v,
                None => {
                    proof {
                        lemma_links_prefix_monotone(cs, i as int, n as int);
                    }
                    return Err(PlonkError::CircuitTooLarge);
                },
            };
            if e == 1 {
                HintVariant::LinkedGate { link_var: first }
            } else {
                HintVariant::ChainedGates { extra_gates: e, first_link_var: first }
            }
        };
        hints.push(TranspilationHint { constraint_index: i, variant });
        links = match links.checked_add(e) {
            Some(l) => l,
            None => {
                proof {
                    lemma_links_prefix_monotone(cs, i + 1, n as int);
                }
                return Err(PlonkError::CircuitTooLarge);
            },
        };
    }
    let gates = match n.checked_add(links) {
        Some(g) => g,
        None => {
            return Err(PlonkError::CircuitTooLarge);
        },
    };
    if r.num_variables.checked_add(links).is_none() {
        return Err(PlonkError::CircuitTooLarge);
    }
    proof {
        assert(hints@ =~= spec_hints(*r));
    }
    Ok((gates, hints))
}

} // verus!
