//! The circuit front end: an ordered list of recorded gate operations,
//! replayed in order against a freshly initialized register. The replay is
//! specified by a recursive fold over the recorded gates, so `execute` states
//! exactly which amplitude sequence (or which first error) a circuit yields.

use vstd::prelude::*;
use vstd::arithmetic::power2::pow2;
use num_complex::Complex32;
use crate::bits::MAX_QUBITS;
use crate::density::{damp_factor, outer_spec, scale_off_n_spec, scale_off_spec, DensityMatrix};
use crate::errors::EngineError;
use crate::gates::{gate_matrix_spec, GateKind};
use crate::scalar::{c_pos, cpos};
use crate::state::{
    cnot_sweep_spec, controlled_sweep_spec, gate_sweep_spec, initial_state_spec, QuantumState,
};

verus! {

/// One recorded gate operation: a kind, its target qubit, and an optional
/// control qubit.
#[derive(Clone, Copy)]
pub struct Gate {
    pub gate_type: GateKind,
    pub target: usize,
    pub control: Option<usize>,
}

/// The state after one recorded gate, or the error that stops the replay: a
/// controlled-NOT or controlled-RY needs a control distinct from its target
/// and both in range; the controlled-RZ placeholder is unsupported; any other
/// kind goes down the single-qubit path with its target in range.
pub open spec fn gate_step_spec(qubits: int, s: Seq<Complex32>, g: Gate) -> Result<
    Seq<Complex32>,
    EngineError,
> {
    match g.gate_type {
        GateKind::CNOT => match g.control {
            Some(c) => if c < qubits && g.target < qubits && c != g.target {
                Ok(cnot_sweep_spec(s, pow2(c as nat) as int, pow2(g.target as nat) as int))
            } else {
                Err(EngineError::InvalidArgument)
            },
            None => Err(EngineError::InvalidArgument),
        },
        GateKind::CRY(theta) => match g.control {
            Some(c) => if c < qubits && g.target < qubits && c != g.target {
                Ok(controlled_sweep_spec(
                    gate_matrix_spec(GateKind::RY(theta)),
                    s,
                    pow2(c as nat) as int,
                    pow2(g.target as nat) as int,
                ))
            } else {
                Err(EngineError::InvalidArgument)
            },
            None => Err(EngineError::InvalidArgument),
        },
        GateKind::CRZ(_) => Err(EngineError::Unsupported),
        _ => if g.target < qubits {
            Ok(gate_sweep_spec(gate_matrix_spec(g.gate_type), s, pow2(g.target as nat) as int))
        } else {
            Err(EngineError::InvalidArgument)
        },
    }
}

/// Replays a gate list, in order, from a starting state: the final state, or
/// the first error.
pub open spec fn replay_spec(qubits: int, s: Seq<Complex32>, gates: Seq<Gate>) -> Result<
    Seq<Complex32>,
    EngineError,
>
    decreases gates.len(),
{
    if gates.len() == 0 {
        Ok(s)
    } else {
        match gate_step_spec(qubits, s, gates[0]) {
            Ok(s2) => replay_spec(qubits, s2, gates.subrange(1, gates.len() as int)),
            Err(e) => Err(e),
        }
    }
}

/// Replaying a concatenation replays the first part, then the second from
/// where the first ended; a first-part error stops the whole replay.
pub proof fn lemma_replay_append(qubits: int, s: Seq<Complex32>, a: Seq<Gate>, b: Seq<Gate>)
    ensures
        replay_spec(qubits, s, a + b) == (match replay_spec(qubits, s, a) {
            Ok(s2) => replay_spec(qubits, s2, b),
            Err(e) => Err(e),
        }),
    decreases a.len(),
{
    if a.len() == 0 {
        assert(a + b =~= b);
    } else {
        assert((a + b)[0] == a[0]);
        assert((a + b).subrange(1, (a + b).len() as int) =~= a.subrange(1, a.len() as int) + b);
        match gate_step_spec(qubits, s, a[0]) {
            Ok(s2) => {
                lemma_replay_append(qubits, s2, a.subrange(1, a.len() as int), b);
            },
            Err(_) => {},
        }
    }
}

/// A circuit builder: a fixed register size and an ordered list of recorded
/// gates, consumed by [`QuantumCircuit::execute`] and
/// [`QuantumCircuit::execute_noisy`].
pub struct QuantumCircuit {
    qubits: usize,
    gates: Vec<Gate>,
}

/// The density matrix a noisy execution yields from a replayed pure state:
/// the outer product, then amplitude damping where its probability is
/// positive, then phase damping where its probability is positive.
pub open spec fn noisy_spec(
    s: Seq<Complex32>,
    qubits: int,
    amp: Complex32,
    phase: Complex32,
) -> Seq<Complex32> {
    let dim = pow2(qubits as nat) as int;
    let m0 = outer_spec(s);
    let m1 = if cpos(amp) {
        scale_off_n_spec(m0, dim, damp_factor(amp), qubits as nat)
    } else {
        m0
    };
    if cpos(phase) {
        scale_off_spec(m1, dim, damp_factor(phase))
    } else {
        m1
    }
}

impl QuantumCircuit {
    /// How many qubits the circuit's register holds.
    pub closed spec fn qubit_count(self) -> int {
        self.qubits as int
    }

    /// The recorded gates, in order.
    pub closed spec fn gate_list(self) -> Seq<Gate> {
        self.gates@
    }

    /// A well-formed circuit: a positive, bounded register size.
    pub closed spec fn wf(self) -> bool {
        1 <= self.qubits <= MAX_QUBITS
    }

    /// An empty circuit over the given register size.
    pub fn new(qubits: usize) -> (r: QuantumCircuit)
        requires
            1 <= qubits <= MAX_QUBITS,
        ensures
            r.wf(),
            r.qubit_count() == qubits,
            r.gate_list().len() == 0,
    {
        QuantumCircuit { qubits, gates: Vec::new() }
    }

    /// Records a Hadamard gate on `target`.
    pub fn h(&mut self, target: usize)
        requires
            old(self).wf(),
        ensures
            final(self).wf(),
            final(self).qubit_count() == old(self).qubit_count(),
            final(self).gate_list() == old(self).gate_list().push(
                (Gate { gate_type: GateKind::H, target, control: None }),
            ),
    {
        self.gates.push(Gate { gate_type: GateKind::H, target, control: None });
    }

    /// Records a Pauli-X gate on `target`.
    pub fn x(&mut self, target: usize)
        requires
            old(self).wf(),
        ensures
            final(self).wf(),
            final(self).qubit_count() == old(self).qubit_count(),
            final(self).gate_list() == old(self).gate_list().push(
                (Gate { gate_type: GateKind::X, target, control: None }),
            ),
    {
        self.gates.push(Gate { gate_type: GateKind::X, target, control: None });
    }

    /// Records a Pauli-Y gate on `target`.
    pub fn y(&mut self, target: usize)
        requires
            old(self).wf(),
        ensures
            final(self).wf(),
            final(self).qubit_count() == old(self).qubit_count(),
            final(self).gate_list() == old(self).gate_list().push(
                (Gate { gate_type: GateKind::Y, target, control: None }),
            ),
    {
        self.gates.push(Gate { gate_type: GateKind::Y, target, control: None });
    }

    /// Records a Pauli-Z gate on `target`.
    pub fn z(&mut self, target: usize)
        requires
            old(self).wf(),
        ensures
            final(self).wf(),
            final(self).qubit_count() == old(self).qubit_count(),
            final(self).gate_list() == old(self).gate_list().push(
                (Gate { gate_type: GateKind::Z, target, control: None }),
            ),
    {
        self.gates.push(Gate { gate_type: GateKind::Z, target, control: None });
    }

    /// Records an RX rotation by `theta` radians on `target`.
    pub fn rx(&mut self, target: usize, theta: Complex32)
        requires
            old(self).wf(),
        ensures
            final(self).wf(),
            final(self).qubit_count() == old(self).qubit_count(),
            final(self).gate_list() == old(self).gate_list().push(
                (Gate { gate_type: GateKind::RX(theta), target, control: None }),
            ),
    {
        self.gates.push(Gate { gate_type: GateKind::RX(theta), target, control: None });
    }

    /// Records an RY rotation by `theta` radians on `target`.
    pub fn ry(&mut self, target: usize, theta: Complex32)
        requires
            old(self).wf(),
        ensures
            final(self).wf(),
            final(self).qubit_count() == old(self).qubit_count(),
            final(self).gate_list() == old(self).gate_list().push(
                (Gate { gate_type: GateKind::RY(theta), target, control: None }),
            ),
    {
        self.gates.push(Gate { gate_type: GateKind::RY(theta), target, control: None });
    }

    /// Records an RZ rotation by `phi` radians on `target`.
    pub fn rz(&mut self, target: usize, phi: Complex32)
        requires
            old(self).wf(),
        ensures
            final(self).wf(),
            final(self).qubit_count() == old(self).qubit_count(),
            final(self).gate_list() == old(self).gate_list().push(
                (Gate { gate_type: GateKind::RZ(phi), target, control: None }),
            ),
    {
        self.gates.push(Gate { gate_type: GateKind::RZ(phi), target, control: None });
    }

    /// Records a controlled-NOT with the given control and target.
    pub fn cnot(&mut self, control: usize, target: usize)
        requires
            old(self).wf(),
        ensures
            final(self).wf(),
            final(self).qubit_count() == old(self).qubit_count(),
            final(self).gate_list() == old(self).gate_list().push(
                (Gate { gate_type: GateKind::CNOT, target, control: Some(control) }),
            ),
    {
        self.gates.push(Gate { gate_type: GateKind::CNOT, target, control: Some(control) });
    }

    /// Records a controlled RY rotation by `theta` radians.
    pub fn cry(&mut self, control: usize, target: usize, theta: Complex32)
        requires
            old(self).wf(),
        ensures
            final(self).wf(),
            final(self).qubit_count() == old(self).qubit_count(),
            final(self).gate_list() == old(self).gate_list().push(
                (Gate { gate_type: GateKind::CRY(theta), target, control: Some(control) }),
            ),
    {
        self.gates.push(Gate { gate_type: GateKind::CRY(theta), target, control: Some(control) });
    }

    /// Replays the recorded gates, in order, against a freshly initialized
    /// register: the resulting state, or the first error, exactly as
    /// [`replay_spec`] folds the recorded gates.
    pub fn execute(&self) -> (r: Result<QuantumState, EngineError>)
        requires
            self.wf(),
        ensures
            match r {
                Ok(st) => st.wf() && st.qubit_count() == self.qubit_count() && replay_spec(
                    self.qubit_count(),
                    initial_state_spec(self.qubit_count() as nat),
                    self.gate_list(),
                ) == Ok::<Seq<Complex32>, EngineError>(st.amps()),
                Err(e) => replay_spec(
                    self.qubit_count(),
                    initial_state_spec(self.qubit_count() as nat),
                    self.gate_list(),
                ) == Err::<Seq<Complex32>, EngineError>(e),
            },
    {
        let ghost init = initial_state_spec(self.qubits as nat);
        let mut st = QuantumState::new(self.qubits);
        let n = self.gates.len();
        let mut i: usize = 0;
        while i < n
            invariant
                i <= n == self.gates@.len(),
                self.wf(),
                st.wf(),
                st.qubit_count() == self.qubit_count(),
                init == initial_state_spec(self.qubits as nat),
                replay_spec(self.qubit_count(), init, self.gate_list().take(i as int))
                    == Ok::<Seq<Complex32>, EngineError>(st.amps()),
            decreases n - i,
        {
            let g = self.gates[i];
            let ghost prev = st.amps();
            let res: Result<(), EngineError> = match g.gate_type {
                GateKind::CNOT => match g.control {
                    Some(c) => st.apply_cnot(c, g.target),
                    None => Err(EngineError::InvalidArgument),
                },
                GateKind::CRY(theta) => match g.control {
                    Some(c) => st.apply_controlled_ry(c, g.target, theta),
                    None => Err(EngineError::InvalidArgument),
                },
                GateKind::CRZ(_) => Err(EngineError::Unsupported),
                _ => st.apply_gate(g.gate_type, g.target),
            };
            match res {
                Ok(()) => {
                    proof {
                        assert(gate_step_spec(self.qubit_count(), prev, g) == Ok::<
                            Seq<Complex32>,
                            EngineError,
                        >(st.amps()));
                        lemma_replay_append(
                            self.qubit_count(),
                            init,
                            self.gate_list().take(i as int),
                            seq![g],
                        );
                        assert(self.gate_list().take(i + 1) =~= self.gate_list().take(i as int)
                            + seq![g]);
                        assert(seq![g].subrange(1, 1) =~= Seq::<Gate>::empty());
                        assert(seq![g][0] == g);
                        assert(replay_spec(self.qubit_count(), st.amps(), seq![g].subrange(1, 1))
                            == Ok::<Seq<Complex32>, EngineError>(st.amps()));
                        assert(replay_spec(self.qubit_count(), prev, seq![g]) == Ok::<
                            Seq<Complex32>,
                            EngineError,
                        >(st.amps()));
                        assert(replay_spec(
                            self.qubit_count(),
                            init,
                            self.gate_list().take(i as int) + seq![g],
                        ) == Ok::<Seq<Complex32>, EngineError>(st.amps()));
                    }
                },
                Err(e) => {
                    proof {
                        assert(gate_step_spec(self.qubit_count(), prev, g) == Err::<
                            Seq<Complex32>,
                            EngineError,
                        >(e));
                        let rest = self.gate_list().subrange(i as int, n as int);
                        lemma_replay_append(
                            self.qubit_count(),
                            init,
                            self.gate_list().take(i as int),
                            rest,
                        );
                        assert(self.gate_list() =~= self.gate_list().take(i as int) + rest);
                        assert(rest[0] == g);
                    }
                    return Err(e);
                },
            }
            i = i + 1;
        }
        proof {
            assert(self.gate_list().take(n as int) =~= self.gate_list());
        }
        Ok(st)
    }

    /// Replays the recorded gates into a pure state, converts it to a
    /// density matrix by outer product, then applies amplitude damping and
    /// phase damping, in that fixed order, each only where its probability is
    /// strictly positive.
    pub fn execute_noisy(&self, noise_params: (Complex32, Complex32)) -> (r: Result<
        DensityMatrix,
        EngineError,
    >)
        requires
            self.wf(),
        ensures
            match r {
                Ok(dm) => dm.wf() && dm.qubit_count() == self.qubit_count() && replay_spec(
                    self.qubit_count(),
                    initial_state_spec(self.qubit_count() as nat),
                    self.gate_list(),
                ) is Ok && dm.entries() == noisy_spec(
                    replay_spec(
                        self.qubit_count(),
                        initial_state_spec(self.qubit_count() as nat),
                        self.gate_list(),
                    )->Ok_0,
                    self.qubit_count(),
                    noise_params.0,
                    noise_params.1,
                ),
                Err(e) => replay_spec(
                    self.qubit_count(),
                    initial_state_spec(self.qubit_count() as nat),
                    self.gate_list(),
                ) == Err::<Seq<Complex32>, EngineError>(e),
            },
    {
        let (amp_damping, phase_damping) = noise_params;
        let state = match self.execute() {
            Ok(s) => s,
            Err(e) => {
                return Err(e);
            },
        };
        let mut dm = DensityMatrix::new(self.qubits);
        dm.from_pure_state(&state);
        if c_pos(amp_damping) {
            dm.apply_amplitude_damping(amp_damping);
        }
        if c_pos(phase_damping) {
            dm.apply_phase_damping(phase_damping);
        }
        Ok(dm)
    }
}

} // verus!
