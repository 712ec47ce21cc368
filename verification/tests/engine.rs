//! End-to-end tests of the engine through its public surface, with the real
//! complex arithmetic linked.

use num_complex::Complex32;
use quantum_engine::circuit::QuantumCircuit;
use quantum_engine::density::DensityMatrix;
use quantum_engine::errors::EngineError;
use quantum_engine::gates::GateKind;
use quantum_engine::state::{spectrum_bands, QuantumState};

const TOL: f32 = 1e-6;

fn close(a: Complex32, re: f32, im: f32) -> bool {
    (a.re - re).abs() < TOL && (a.im - im).abs() < TOL
}

fn norm_sqr_sum(v: &[Complex32]) -> f32 {
    v.iter().map(|c| c.norm_sqr()).sum()
}

#[test]
fn h_on_one_qubit() {
    let mut st = QuantumState::new(1);
    st.apply_gate(GateKind::H, 0).unwrap();
    let v = st.get_state_vector();
    let s = 1.0f32 / 2.0f32.sqrt();
    assert_eq!(v.len(), 2);
    assert!(close(v[0], s, 0.0));
    assert!(close(v[1], s, 0.0));
}

#[test]
fn x_on_one_qubit_exact() {
    let mut st = QuantumState::new(1);
    st.apply_gate(GateKind::X, 0).unwrap();
    let v = st.get_state_vector();
    assert_eq!(v[0], Complex32::new(0.0, 0.0));
    assert_eq!(v[1], Complex32::new(1.0, 0.0));
}

#[test]
fn y_and_s_phases_exact() {
    let mut st = QuantumState::new(1);
    st.apply_gate(GateKind::Y, 0).unwrap();
    let v = st.get_state_vector();
    assert_eq!(v[1], Complex32::new(0.0, 1.0));
    let mut st2 = QuantumState::new(1);
    st2.apply_gate(GateKind::X, 0).unwrap();
    st2.apply_gate(GateKind::S, 0).unwrap();
    let w = st2.get_state_vector();
    assert_eq!(w[1], Complex32::new(0.0, 1.0));
}

#[test]
fn cnot_on_two_qubits() {
    let mut circuit = QuantumCircuit::new(2);
    circuit.x(0);
    circuit.cnot(0, 1);
    let st = circuit.execute().unwrap();
    let v = st.get_state_vector();
    assert!(close(v[0], 0.0, 0.0));
    assert!(close(v[1], 0.0, 0.0));
    assert!(close(v[2], 0.0, 0.0));
    assert!(close(v[3], 1.0, 0.0));
}

#[test]
fn norm_preserved_by_gate_sequence() {
    let mut st = QuantumState::new(3);
    st.apply_gate(GateKind::H, 0).unwrap();
    st.apply_gate(GateKind::RX(Complex32::new(0.7, 0.0)), 1).unwrap();
    st.apply_gate(GateKind::T, 0).unwrap();
    st.apply_gate(GateKind::RY(Complex32::new(1.3, 0.0)), 2).unwrap();
    st.apply_gate(GateKind::Z, 1).unwrap();
    st.apply_cnot(0, 2).unwrap();
    st.apply_gate(GateKind::RZ(Complex32::new(0.4, 0.0)), 2).unwrap();
    st.apply_controlled_ry(2, 0, Complex32::new(0.9, 0.0)).unwrap();
    let v = st.get_state_vector();
    assert!((norm_sqr_sum(&v) - 1.0).abs() < TOL);
}

#[test]
fn expectation_zero_on_initial_state_both_engines() {
    let st = QuantumState::new(2);
    assert_eq!(st.expectation_value().re, 0.0);
    let dm = DensityMatrix::new(2);
    assert_eq!(dm.expectation_value().re, 0.0);
}

#[test]
fn phase_damping_zero_is_identity() {
    let mut st = QuantumState::new(1);
    st.apply_gate(GateKind::H, 0).unwrap();
    let mut dm = DensityMatrix::new(1);
    dm.from_pure_state(&st);
    let before = dm.entropy().re;
    dm.apply_phase_damping(Complex32::new(0.0, 0.0));
    let after = dm.entropy().re;
    assert_eq!(before, after);
    assert!(before.abs() < TOL);
}

#[test]
fn phase_damping_one_kills_coherences() {
    let mut st = QuantumState::new(1);
    st.apply_gate(GateKind::H, 0).unwrap();
    let mut dm = DensityMatrix::new(1);
    dm.from_pure_state(&st);
    dm.apply_phase_damping(Complex32::new(1.0, 0.0));
    // rho becomes diag(1/2, 1/2): purity 1/2, linear entropy 1/2.
    assert!((dm.entropy().re - 0.5).abs() < TOL);
}

#[test]
fn phase_damping_clamps_probability() {
    let mut st = QuantumState::new(1);
    st.apply_gate(GateKind::H, 0).unwrap();
    let mut dm = DensityMatrix::new(1);
    dm.from_pure_state(&st);
    dm.apply_phase_damping(Complex32::new(7.5, 0.0));
    assert!((dm.entropy().re - 0.5).abs() < TOL);
}

#[test]
fn pure_basis_state_has_zero_linear_entropy() {
    let mut st = QuantumState::new(2);
    st.apply_gate(GateKind::X, 1).unwrap();
    let mut dm = DensityMatrix::new(2);
    dm.from_pure_state(&st);
    assert!(dm.entropy().re.abs() < TOL);
}

#[test]
fn invalid_indices_leave_state_untouched() {
    let mut st = QuantumState::new(2);
    st.apply_gate(GateKind::H, 0).unwrap();
    let before = st.get_state_vector();
    assert_eq!(st.apply_cnot(0, 0), Err(EngineError::InvalidArgument));
    assert_eq!(st.apply_cnot(5, 1), Err(EngineError::InvalidArgument));
    assert_eq!(st.apply_cnot(1, 9), Err(EngineError::InvalidArgument));
    assert_eq!(st.apply_controlled_ry(1, 1, Complex32::new(0.3, 0.0)), Err(EngineError::InvalidArgument));
    assert_eq!(st.apply_controlled_ry(4, 0, Complex32::new(0.3, 0.0)), Err(EngineError::InvalidArgument));
    assert_eq!(st.apply_gate(GateKind::H, 2), Err(EngineError::InvalidArgument));
    assert_eq!(st.apply_gate(GateKind::CNOT, 0), Err(EngineError::InvalidArgument));
    let after = st.get_state_vector();
    assert_eq!(before, after);
}

#[test]
fn parallel_sweep_matches_small_register_results() {
    // Eleven qubits put the dimension above the parallel threshold; the same
    // X and H on a one-qubit register take the sequential path. The low
    // qubit's amplitudes must agree.
    let mut big = QuantumState::new(11);
    big.apply_gate(GateKind::X, 3).unwrap();
    let v = big.get_state_vector();
    assert_eq!(v.len(), 2048);
    assert_eq!(v[8], Complex32::new(1.0, 0.0));
    assert_eq!(norm_sqr_sum(&v), 1.0);

    let mut big2 = QuantumState::new(11);
    big2.apply_gate(GateKind::H, 0).unwrap();
    let w = big2.get_state_vector();
    let mut small = QuantumState::new(1);
    small.apply_gate(GateKind::H, 0).unwrap();
    let ws = small.get_state_vector();
    assert!((w[0] - ws[0]).norm() < TOL);
    assert!((w[1] - ws[1]).norm() < TOL);
}

#[test]
fn parallel_cnot_matches_flip() {
    let mut st = QuantumState::new(11);
    st.apply_gate(GateKind::X, 0).unwrap();
    st.apply_cnot(0, 5).unwrap();
    let v = st.get_state_vector();
    assert_eq!(v[1 + 32], Complex32::new(1.0, 0.0));
    assert_eq!(norm_sqr_sum(&v), 1.0);
}

#[test]
fn resonance_of_initial_state() {
    // FFT of (1, 0, 0, 0) is (1, 1, 1, 1): every band averages to one after
    // doubling and capping.
    let st = QuantumState::new(2);
    let r = st.resonance();
    assert_eq!(r.len(), 3);
    assert!((r[0].re - 1.0).abs() < TOL);
    assert!((r[1].re - 1.0).abs() < TOL);
    assert!((r[2].re - 1.0).abs() < TOL);
}

#[test]
fn dm_resonance_reads_diagonal() {
    let dm = DensityMatrix::new(2);
    let r = dm.resonance();
    assert_eq!(r.len(), 3);
    assert!((r[0].re - 1.0).abs() < TOL);
    assert!(r[1].re.abs() < TOL);
    assert!(r[2].re.abs() < TOL);
}

#[test]
fn entropy_of_equal_superposition() {
    let mut st = QuantumState::new(1);
    st.apply_gate(GateKind::H, 0).unwrap();
    assert!((st.entropy().re - 1.0).abs() < TOL);
}

#[test]
fn entropy_of_initial_state_is_zero() {
    let st = QuantumState::new(3);
    assert!(st.entropy().re.abs() < TOL);
}

#[test]
fn controlled_ry_pi_acts_as_controlled_flip() {
    let mut circuit = QuantumCircuit::new(2);
    circuit.x(0);
    circuit.cry(0, 1, Complex32::new(std::f32::consts::PI, 0.0));
    let st = circuit.execute().unwrap();
    let v = st.get_state_vector();
    assert!((v[3].re - 1.0).abs() < TOL);
    assert!(v[1].norm() < TOL);
}

#[test]
fn rz_after_h_gives_symmetric_phases() {
    let mut st = QuantumState::new(1);
    st.apply_gate(GateKind::H, 0).unwrap();
    st.apply_gate(GateKind::RZ(Complex32::new(std::f32::consts::PI, 0.0)), 0).unwrap();
    let v = st.get_state_vector();
    let s = 1.0f32 / 2.0f32.sqrt();
    assert!(close(v[0], 0.0, -s));
    assert!(close(v[1], 0.0, s));
}

#[test]
fn t_gate_phase_on_excited_state() {
    let mut st = QuantumState::new(1);
    st.apply_gate(GateKind::X, 0).unwrap();
    st.apply_gate(GateKind::T, 0).unwrap();
    let v = st.get_state_vector();
    let s = 1.0f32 / 2.0f32.sqrt();
    assert!(close(v[1], s, s));
}

#[test]
fn execute_noisy_dampens_coherence() {
    let mut circuit = QuantumCircuit::new(1);
    circuit.h(0);
    let dm = circuit.execute_noisy((Complex32::new(0.5, 0.0), Complex32::new(0.5, 0.0))).unwrap();
    // Off-diagonals decay by sqrt(0.5) once for the single qubit and once
    // for dephasing: 0.5 * 0.5 = 0.25; purity 0.625, linear entropy 0.375.
    assert!((dm.entropy().re - 0.375).abs() < 1e-5);
    assert!((dm.expectation_value().re - 0.5).abs() < TOL);
}

#[test]
fn execute_noisy_without_noise_keeps_purity() {
    let mut circuit = QuantumCircuit::new(2);
    circuit.h(0);
    circuit.cnot(0, 1);
    let dm = circuit.execute_noisy((Complex32::new(0.0, 0.0), Complex32::new(0.0, 0.0))).unwrap();
    assert!(dm.entropy().re.abs() < TOL);
}

#[test]
fn execute_reports_first_error() {
    let mut circuit = QuantumCircuit::new(2);
    circuit.h(0);
    circuit.cnot(1, 1);
    circuit.x(0);
    assert_eq!(circuit.execute().err(), Some(EngineError::InvalidArgument));
    let mut circuit2 = QuantumCircuit::new(2);
    circuit2.h(5);
    assert_eq!(circuit2.execute().err(), Some(EngineError::InvalidArgument));
}

#[test]
fn amplitude_damping_compounds_per_qubit() {
    // On a two-qubit register the off-diagonal decay factor applies twice.
    let mut circuit = QuantumCircuit::new(2);
    circuit.h(0);
    let dm = circuit.execute_noisy((Complex32::new(0.5, 0.0), Complex32::new(0.0, 0.0))).unwrap();
    // rho off-diagonals 0.5 * sqrt(0.5)^2 = 0.25; purity 0.625.
    assert!((dm.entropy().re - 0.375).abs() < 1e-5);
}

#[test]
fn normalize_keeps_unit_state() {
    let mut st = QuantumState::new(1);
    st.apply_gate(GateKind::H, 0).unwrap();
    st.normalize();
    let v = st.get_state_vector();
    assert!((norm_sqr_sum(&v) - 1.0).abs() < TOL);
}

#[test]
fn get_state_vector_length() {
    let st = QuantumState::new(4);
    assert_eq!(st.get_state_vector().len(), 16);
}

#[test]
fn h_on_excited_state_gives_minus_branch() {
    let mut st = QuantumState::new(1);
    st.apply_gate(GateKind::X, 0).unwrap();
    st.apply_gate(GateKind::H, 0).unwrap();
    let v = st.get_state_vector();
    let s = 1.0f32 / 2.0f32.sqrt();
    assert!(close(v[0], s, 0.0));
    assert!(close(v[1], -s, 0.0));
}

#[test]
fn resonance_of_excited_state_uses_magnitudes() {
    // FFT of (0, 1) is (1, -1); the last band must see magnitudes, not real
    // parts, so it reports one.
    let mut st = QuantumState::new(1);
    st.apply_gate(GateKind::X, 0).unwrap();
    let r = st.resonance();
    assert!((r[2].re - 1.0).abs() < TOL);
}

#[test]
fn dm_diagonal_is_conjugate_product() {
    // After H then S the excited amplitude is imaginary; its diagonal entry
    // of the outer product is its squared magnitude, which only the
    // conjugated product yields.
    let mut st = QuantumState::new(1);
    st.apply_gate(GateKind::H, 0).unwrap();
    st.apply_gate(GateKind::S, 0).unwrap();
    let mut dm = DensityMatrix::new(1);
    dm.from_pure_state(&st);
    let r = dm.resonance();
    assert!((r[2].re - 1.0).abs() < TOL);
    assert!((dm.expectation_value().re - 0.5).abs() < TOL);
}

#[test]
fn spectrum_bands_partitions_and_scales() {
    let mags = vec![
        Complex32::new(0.1, 0.0),
        Complex32::new(0.2, 0.0),
        Complex32::new(0.3, 0.0),
        Complex32::new(0.1, 0.0),
        Complex32::new(0.05, 0.0),
    ];
    // Five magnitudes give bands of sizes 1, 1 and 3.
    let r = spectrum_bands(&mags);
    assert!((r[0].re - 0.2).abs() < TOL);
    assert!((r[1].re - 0.4).abs() < TOL);
    assert!((r[2].re - 0.3).abs() < TOL);
}
