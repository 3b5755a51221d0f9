//! The prover orchestrator: per-circuit setup, verification-key sizing,
//! witness validation, and dispatch between the two proving strategies;
//! together with the error taxonomy of the whole core and the verifier's
//! outcome classification.

use vstd::prelude::*;
use vstd::arithmetic::power2::pow2;
use bellman_ce::pairing::bn256::Fr;
use crate::r1cs::R1cs;
use crate::r1cs::constraint_satisfied;
use crate::r1cs::witness_satisfies;
use crate::replay::replay_constraint;
use crate::transpile::TranspilationHint;
use crate::transpile::ConstraintStat;
use crate::transpile::spec_hints;
use crate::transpile::spec_gate_count;
use crate::transpile::spec_fits;
use crate::transpile::nontrivial_prefix;
use crate::transpile::stats_prefix;
use crate::transpile::constraint_extra;
use crate::transpile::links_prefix;
use crate::transpile::side_extra_exec;
use crate::transpile::transpile_with_gates_count;
use crate::transpile::lemma_links_prefix_monotone;
use crate::domain::SETUP_MIN_POW2;
use crate::domain::SETUP_MAX_POW2;
use crate::domain::setup_power_of_two;

verus! {

/// Every failure of the orchestration core, structured so that callers can
/// tell a bad configuration from a bad circuit, a bad witness, and a bad
/// artifact.
#[derive(Clone, Copy, Debug, PartialEq, Eq, Structural)]
pub enum PlonkError {
    /// Configuration: the circuit's gate or variable count does not fit the
    /// machine word.
    CircuitTooLarge,
    /// Configuration: the circuit's number of gates requires an evaluation domain above the
    /// supported maximum power of two.
    SetupPowerOutOfRange,
    /// Configuration: the monomial-form reference string has too small a
    /// degree for the circuit's evaluation domain.
    InsufficientCrsDegree,
    /// Witness: the constraint with this index is not satisfied by the
    /// witness under check.
    UnsatisfiedConstraint { index: usize },
}

/// The three outcomes a verification attempt must keep apart: a valid proof,
/// a well-formed but cryptographically false proof, and a proof that could
/// not even be decoded.
#[derive(Clone, Copy, Debug, PartialEq, Eq, Structural)]
pub enum VerifyOutcome {
    Valid,
    Invalid,
    Malformed,
}

/// Classifies the end of a verification attempt. A proof that failed to
/// decode is malformed whatever the pairing check would have said; a decoded
/// proof is valid exactly when the pairing check accepted it. Malformed and
/// invalid are never conflated.
pub fn classify_verification(decoded: bool, pairing_ok: bool) -> (r: VerifyOutcome)
    ensures
        r == VerifyOutcome::Malformed <==> !decoded,
        decoded ==> (r == VerifyOutcome::Valid <==> pairing_ok),
        decoded ==> (r == VerifyOutcome::Invalid <==> !pairing_ok),
{
    if !decoded {
        VerifyOutcome::Malformed
    } else if pairing_ok {
        VerifyOutcome::Valid
    } else {
        VerifyOutcome::Invalid
    }
}

/// Circuit analysis result: aggregate statistics of one read-only
/// transpilation pass, for introspection and cost estimation only.
#[derive(Clone, Debug)]
pub struct AnalyseResult {
    pub num_inputs: usize,
    pub num_aux: usize,
    pub num_variables: usize,
    pub num_constraints: usize,
    pub num_nontrivial_constraints: usize,
    pub num_gates: usize,
    pub num_hints: usize,
    pub constraint_stats: Vec<ConstraintStat>,
}

/// Analyses a circuit: counts its variables and constraints, transpiles it,
/// and reports the counts of gates and hints together with one statistics entry
/// per nontrivial constraint. Pure and side-effect free; fails (with a
/// configuration error, and only then) exactly when transpilation would not
/// fit the machine word.
pub fn analyse(circuit: &R1cs) -> (res: Result<AnalyseResult, PlonkError>)
    requires
        circuit.wf(),
    ensures
        res is Ok <==> spec_fits(*circuit),
        res matches Ok(a) ==> {
            &&& a.num_inputs == circuit.num_inputs
            &&& a.num_aux == circuit.num_aux
            &&& a.num_variables == circuit.num_variables
            &&& a.num_constraints == circuit.constraints@.len()
            &&& a.num_nontrivial_constraints == nontrivial_prefix(
                circuit.constraints@,
                circuit.constraints@.len() as int,
            )
            &&& a.num_gates == spec_gate_count(*circuit)
            &&& a.num_hints == circuit.constraints@.len()
            &&& a.constraint_stats@ == stats_prefix(
                circuit.constraints@,
                circuit.constraints@.len() as int,
            )
        },
        res matches Err(e) ==> e == PlonkError::CircuitTooLarge,
{
    let (gates, hints) = match transpile_with_gates_count(circuit) {
        Ok(p) => p,
        Err(e) => {
            return Err(e);
        },
    };
    let ghost cs = circuit.constraints@;
    let n = circuit.constraints.len();
    let mut stats: Vec<ConstraintStat> = Vec::new();
    let mut nontrivial: usize = 0;
    for i in 0..n
        invariant
            n == circuit.constraints@.len(),
            cs == circuit.constraints@,
            spec_fits(*circuit),
            nontrivial == nontrivial_prefix(cs, i as int),
            nontrivial <= i,
            stats@ == stats_prefix(cs, i as int),
    {
        let con = &circuit.constraints[i];
        let ea = side_extra_exec(&con.a);
        let eb = side_extra_exec(&con.b);
        let ec = side_extra_exec(&con.c);
        proof {
            lemma_links_prefix_monotone(cs, i + 1, n as int);
            assert(links_prefix(cs, i + 1) == links_prefix(cs, i as int) + constraint_extra(
                cs[i as int],
            ));
        }
        let e = ea + eb + ec;
        if e > 0 {
            stats.push(ConstraintStat { constraint_index: i, num_gates: 1 + e });
            nontrivial = nontrivial + 1;
        }
    }
    Ok(
        AnalyseResult {
            num_inputs: circuit.num_inputs,
            num_aux: circuit.num_aux,
            num_variables: circuit.num_variables,
            num_constraints: n,
            num_nontrivial_constraints: nontrivial,
            num_gates: gates,
            num_hints: hints.len(),
            constraint_stats: stats,
        },
    )
}

/// Which proving strategy the orchestrator dispatches to: the fast path over
/// the lagrange basis when a lagrange-form reference string is at hand, the
/// slower on-the-fly derivation from the monomial form otherwise. The two
/// are a performance trade-off, not a semantic one.
#[derive(Clone, Copy, Debug, PartialEq, Eq, Structural)]
pub enum ProvingStrategy {
    LagrangeBasis,
    MonomialOnTheFly,
}

/// The per-circuit setup the prover orchestrator owns: the circuit, its
/// transpilation hints and gate count, the evaluation-domain size, and the
/// degrees of the reference-string material at hand (the monomial form
/// always, the lagrange form optionally).
pub struct SetupForProver {
    pub r1cs: R1cs,
    pub hints: Vec<TranspilationHint>,
    pub gate_count: usize,
    pub setup_power_of_two: u32,
    pub domain_size: usize,
    pub key_monomial_degree: usize,
    pub key_lagrange_degree: Option<usize>,
}

impl SetupForProver {
    /// The orchestrator's invariant: the hints and gate count are exactly
    /// the circuit's transpilation, and the domain is the next power of two
    /// at least the number of gates, clamped to the supported range.
    pub open spec fn wf(self) -> bool {
        &&& self.r1cs.wf()
        &&& spec_fits(self.r1cs)
        &&& self.hints@ == spec_hints(self.r1cs)
        &&& self.gate_count == spec_gate_count(self.r1cs)
        &&& SETUP_MIN_POW2 <= self.setup_power_of_two <= SETUP_MAX_POW2
        &&& self.domain_size == pow2(self.setup_power_of_two as nat)
        &&& self.gate_count <= self.domain_size
        &&& (self.setup_power_of_two == SETUP_MIN_POW2 || pow2(
            (self.setup_power_of_two - 1) as nat,
        ) < self.gate_count)
    }

    /// Builds the per-circuit setup: transpiles the circuit, sizes the
    /// evaluation domain, and bundles the reference-string degrees. Fails
    /// with a configuration error exactly when the circuit does not fit the
    /// machine word or its domain would exceed the supported maximum.
    pub fn prepare_setup_for_prover(
        circuit: R1cs,
        key_monomial_degree: usize,
        key_lagrange_degree: Option<usize>,
    ) -> (r: Result<SetupForProver, PlonkError>)
        requires
            circuit.wf(),
        ensures
            r is Ok <==> spec_fits(circuit) && spec_gate_count(circuit) <= pow2(
                SETUP_MAX_POW2 as nat,
            ),
            r matches Ok(s) ==> {
                &&& s.wf()
                &&& s.r1cs == circuit
                &&& s.key_monomial_degree == key_monomial_degree
                &&& s.key_lagrange_degree == key_lagrange_degree
            },
            r matches Err(e) ==> {
                ||| e == PlonkError::CircuitTooLarge && !spec_fits(circuit)
                ||| e == PlonkError::SetupPowerOutOfRange && spec_fits(circuit)
                    && spec_gate_count(circuit) > pow2(SETUP_MAX_POW2 as nat)
            },
    {
        let (gates, hints) = match transpile_with_gates_count(&circuit) {
            Ok(p) => p,
            Err(e) => {
                return Err(e);
            },
        };
        let (power, domain) = match setup_power_of_two(gates) {
            Ok(p) => p,
            Err(e) => {
                return Err(e);
            },
        };
        Ok(
            SetupForProver {
                r1cs: circuit,
                hints,
                gate_count: gates,
                setup_power_of_two: power,
                domain_size: domain,
                key_monomial_degree,
                key_lagrange_degree,
            },
        )
    }

    /// Sizes the verification key: commitments to the custom-gate system are made
    /// over the whole evaluation domain, so the monomial-form reference
    /// string must have at least that degree. Returns the domain size the
    /// commitments are taken over; fails exactly when the reference string
    /// is too small.
    pub fn make_verification_key(&self) -> (r: Result<usize, PlonkError>)
        requires
            self.wf(),
        ensures
            r is Ok <==> self.key_monomial_degree >= self.domain_size,
            r matches Ok(d) ==> d == self.domain_size,
            r matches Err(e) ==> e == PlonkError::InsufficientCrsDegree,
    {
        if self.key_monomial_degree >= self.domain_size {
            Ok(self.domain_size)
        } else {
            Err(PlonkError::InsufficientCrsDegree)
        }
    }

    /// The one-shot satisfiability check: replays each constraint's
    /// rewriting against the witness, in order, evaluating every folded
    /// gate without building any commitment. Succeeds exactly when the
    /// witness satisfies the whole circuit (replay accepts exactly the
    /// witnesses the original constraints accept); otherwise reports the
    /// first unsatisfied constraint, and never any other error kind.
    pub fn validate_witness(&self, witness: &Vec<Fr>) -> (r: Result<(), PlonkError>)
        requires
            self.wf(),
            witness@.len() == self.r1cs.num_variables,
        ensures
            r is Ok <==> witness_satisfies(self.r1cs, witness@),
            r matches Err(PlonkError::UnsatisfiedConstraint { index }) ==> {
                &&& index < self.r1cs.constraints@.len()
                &&& !constraint_satisfied(self.r1cs.constraints@[index as int], witness@)
                &&& forall|j: int|
                        0 <= j < index ==> constraint_satisfied(
                            #[trigger] self.r1cs.constraints@[j],
                            witness@,
                        )
            },
            r is Err ==> r->Err_0 is UnsatisfiedConstraint,
    {
        let n = self.r1cs.constraints.len();
        for i in 0..n
            invariant
                n == self.r1cs.constraints@.len(),
                self.r1cs.wf(),
                witness@.len() == self.r1cs.num_variables,
                forall|j: int|
                    0 <= j < i ==> constraint_satisfied(
                        #[trigger] self.r1cs.constraints@[j],
                        witness@,
                    ),
        {
            let (satisfied, _links) = replay_constraint(&self.r1cs.constraints[i], witness);
            if !satisfied {
                return Err(PlonkError::UnsatisfiedConstraint { index: i });
            }
        }
        Ok(())
    }

    /// Proof-generation dispatch: first runs the one-shot check and refuses
    /// to proceed on an unsatisfied witness (a proof is never emitted for an
    /// invalid witness); on success picks the lagrange-basis fast path when
    /// a lagrange-form reference string is at hand and the on-the-fly
    /// monomial path otherwise.
    pub fn prove(&self, witness: &Vec<Fr>) -> (r: Result<ProvingStrategy, PlonkError>)
        requires
            self.wf(),
            witness@.len() == self.r1cs.num_variables,
        ensures
            r is Ok <==> witness_satisfies(self.r1cs, witness@),
            r matches Ok(s) ==> (s == ProvingStrategy::LagrangeBasis <==> self.key_lagrange_degree
                is Some),
            r matches Err(PlonkError::UnsatisfiedConstraint { index }) ==> {
                &&& index < self.r1cs.constraints@.len()
                &&& !constraint_satisfied(self.r1cs.constraints@[index as int], witness@)
            },
            r is Err ==> r->Err_0 is UnsatisfiedConstraint,
    {
        match self.validate_witness(witness) {
            Err(e) => Err(e),
            Ok(()) => match self.key_lagrange_degree {
                Some(_) => Ok(ProvingStrategy::LagrangeBasis),
                None => Ok(ProvingStrategy::MonomialOnTheFly),
            },
        }
    }

    /// The domain size at which a lagrange-form reference string is derived
    /// from this orchestrator's monomial form. The derivation itself is the
    /// external library's and is a pure function of the monomial form and
    /// this size, so callers may cache its result.
    pub fn get_srs_lagrange_form_from_monomial_form(&self) -> (r: usize)
        requires
            self.wf(),
        ensures
            r == self.domain_size,
            r == pow2(self.setup_power_of_two as nat),
    {
        self.domain_size
    }
}

/// Law: the analyser's count of gates equals the number of gates the setup builder's
/// own transpilation produced for the same circuit.
pub proof fn lemma_analyse_consistent_with_setup(c: R1cs, a: AnalyseResult, s: SetupForProver)
    requires
        a.num_gates == spec_gate_count(c),
        s.r1cs == c,
        s.wf(),
    ensures
        a.num_gates == s.gate_count,
{
}

/// Law: the two proving strategies accept exactly the same witnesses. Any
/// two dispatch results for the same circuit and witness — one with
/// lagrange-form material at hand, one without — either both hand a strategy
/// out or both refuse.
pub proof fn lemma_strategy_equivalence(
    c: R1cs,
    w: Seq<Fr>,
    r_fast: Result<ProvingStrategy, PlonkError>,
    r_slow: Result<ProvingStrategy, PlonkError>,
)
    requires
        r_fast is Ok <==> witness_satisfies(c, w),
        r_slow is Ok <==> witness_satisfies(c, w),
    ensures
        r_fast is Ok <==> r_slow is Ok,
{
}

} // verus!
