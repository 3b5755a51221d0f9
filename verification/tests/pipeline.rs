// End-to-end runs of the external proving pipeline for the same example
// circuit the library models: x * y = z with z public. The library's
// orchestration decisions (validation, strategy dispatch, domain sizing) are
// exercised in tests/orchestration.rs; here the external prover and verifier
// run for real, on both proving strategies, and on corrupted proof bytes.

use bellman_ce::pairing::bn256::Bn256;
use bellman_ce::pairing::bn256::Fr;
use bellman_ce::kate_commitment::Crs;
use bellman_ce::kate_commitment::CrsForLagrangeForm;
use bellman_ce::kate_commitment::CrsForMonomialForm;
use bellman_ce::plonk::better_cs::cs::PlonkCsWidth4WithNextStepParams;
use bellman_ce::plonk::better_cs::keys::Proof;
use bellman_ce::plonk::commitments::transcript::keccak_transcript::RollingKeccakTranscript;
use bellman_ce::worker::Worker;
use bellman_ce::Circuit;
use bellman_ce::ConstraintSystem;
use bellman_ce::SynthesisError;
use zktoy::field::fr_from_u64;
use zktoy::plonk::classify_verification;
use zktoy::plonk::ProvingStrategy;
use zktoy::plonk::SetupForProver;
use zktoy::plonk::VerifyOutcome;
use zktoy::r1cs::R1cs;
use zktoy::r1cs::Term;

/// The example circuit, for the external proving backend: one public input
/// z, aux x and y, one constraint x * y = z.
#[derive(Clone)]
struct MulCircuit {
    x: Option<Fr>,
    y: Option<Fr>,
    z: Option<Fr>,
}

impl Circuit<Bn256> for MulCircuit {
    fn synthesize<CS: ConstraintSystem<Bn256>>(self, cs: &mut CS) -> Result<(), SynthesisError> {
        let z = cs.alloc_input(|| "z", || self.z.ok_or(SynthesisError::AssignmentMissing))?;
        let x = cs.alloc(|| "x", || self.x.ok_or(SynthesisError::AssignmentMissing))?;
        let y = cs.alloc(|| "y", || self.y.ok_or(SynthesisError::AssignmentMissing))?;
        cs.enforce(|| "x * y = z", |lc| lc + x, |lc| lc + y, |lc| lc + z);
        Ok(())
    }
}

fn mul_circuit_instance(x: u64, y: u64, z: u64) -> MulCircuit {
    MulCircuit {
        x: Some(fr_from_u64(x)),
        y: Some(fr_from_u64(y)),
        z: Some(fr_from_u64(z)),
    }
}

/// The library-side model of the same circuit, used to drive the dispatch.
fn mul_model() -> R1cs {
    let mut c = R1cs::new(2, 2).expect("variable count fits");
    assert!(c.add_constraint(
        vec![Term { coeff: fr_from_u64(1), var: 2 }],
        vec![Term { coeff: fr_from_u64(1), var: 3 }],
        vec![Term { coeff: fr_from_u64(1), var: 1 }],
    ));
    c
}

fn mul_model_witness(x: u64, y: u64, z: u64) -> Vec<Fr> {
    vec![fr_from_u64(1), fr_from_u64(z), fr_from_u64(x), fr_from_u64(y)]
}

type PlonkProof = Proof<Bn256, PlonkCsWidth4WithNextStepParams>;

fn run_verify(
    vk: &bellman_ce::plonk::better_cs::keys::VerificationKey<Bn256, PlonkCsWidth4WithNextStepParams>,
    proof: &PlonkProof,
) -> Result<bool, SynthesisError> {
    bellman_ce::plonk::verify::<Bn256, RollingKeccakTranscript<Fr>>(proof, vk)
}

#[test]
fn proof_round_trip_on_both_strategies() {
    let worker = Worker::new();
    let crs_mon = Crs::<Bn256, CrsForMonomialForm>::crs_42(1024, &worker);

    let circuit = mul_circuit_instance(3, 4, 12);
    let hints = bellman_ce::plonk::transpile::<Bn256, _>(circuit.clone()).expect("transpiles");
    let setup = bellman_ce::plonk::setup(circuit.clone(), &hints).expect("setup");
    let vk = bellman_ce::plonk::make_verification_key(&setup, &crs_mon).expect("vk");

    // The library decides the strategy; the backend then runs the chosen
    // path. First, no lagrange-form material: the on-the-fly monomial path.
    let model = SetupForProver::prepare_setup_for_prover(mul_model(), 1024, None)
        .expect("model setup");
    let witness = mul_model_witness(3, 4, 12);
    assert_eq!(model.prove(&witness), Ok(ProvingStrategy::MonomialOnTheFly));
    let proof_slow = bellman_ce::plonk::prove_by_steps::<Bn256, _, RollingKeccakTranscript<Fr>>(
        circuit.clone(),
        &hints,
        &setup,
        None,
        &crs_mon,
        None,
    )
    .expect("proves");
    assert_eq!(run_verify(&vk, &proof_slow).expect("decodable"), true);

    // Now with lagrange-form material, at the domain size the library hands
    // out for the derivation: the fast path. Both proofs must verify.
    let lagrange_size = setup.n.next_power_of_two();
    let crs_lag = Crs::<Bn256, CrsForLagrangeForm>::from_powers(&crs_mon, lagrange_size, &worker);
    let model_fast =
        SetupForProver::prepare_setup_for_prover(mul_model(), 1024, Some(lagrange_size))
            .expect("model setup");
    assert_eq!(model_fast.prove(&witness), Ok(ProvingStrategy::LagrangeBasis));
    let proof_fast = bellman_ce::plonk::prove::<Bn256, _, RollingKeccakTranscript<Fr>>(
        circuit,
        &hints,
        &setup,
        &crs_mon,
        &crs_lag,
    )
    .expect("proves");
    assert_eq!(run_verify(&vk, &proof_fast).expect("decodable"), true);
}

#[test]
fn corrupted_proof_never_verifies() {
    let worker = Worker::new();
    let crs_mon = Crs::<Bn256, CrsForMonomialForm>::crs_42(1024, &worker);

    let circuit = mul_circuit_instance(3, 4, 12);
    let hints = bellman_ce::plonk::transpile::<Bn256, _>(circuit.clone()).expect("transpiles");
    let setup = bellman_ce::plonk::setup(circuit.clone(), &hints).expect("setup");
    let vk = bellman_ce::plonk::make_verification_key(&setup, &crs_mon).expect("vk");
    let proof = bellman_ce::plonk::prove_by_steps::<Bn256, _, RollingKeccakTranscript<Fr>>(
        circuit,
        &hints,
        &setup,
        None,
        &crs_mon,
        None,
    )
    .expect("proves");

    let mut bytes = Vec::new();
    proof.write(&mut bytes).expect("serializes");

    // The untouched bytes round-trip and verify.
    let restored = PlonkProof::read(&bytes[..]).expect("decodable");
    assert_eq!(run_verify(&vk, &restored).expect("decodable"), true);

    // A single corrupted byte must yield an invalid or malformed proof,
    // never a valid one. (Length-prefix bytes are left alone: corrupting a
    // length makes the reader attempt a huge allocation, which is a denial,
    // not a false acceptance.) The positions fall in the public input, the
    // wire commitments, and the final opening proof.
    let positions = [20, 40, 60, 100, 200, bytes.len() - 1];
    for &pos in positions.iter() {
        let mut corrupted = bytes.clone();
        corrupted[pos] ^= 0x01;
        let outcome = match PlonkProof::read(&corrupted[..]) {
            Err(_) => classify_verification(false, false),
            Ok(p) => match run_verify(&vk, &p) {
                Err(_) => classify_verification(false, false),
                Ok(ok) => classify_verification(true, ok),
            },
        };
        assert_ne!(outcome, VerifyOutcome::Valid, "corrupt byte at {}", pos);
    }
}
