//! The pure-state engine: `2^n` complex amplitudes, mutated once per gate.
//!
//! Basis index `i` is an `n`-bit label whose bit `k` is the value of qubit
//! `k`. Every gate application states, amplitude for amplitude, which
//! arithmetic expression over the prior state the new state holds; the
//! sequential and the data-parallel sweep strategies are verified against the
//! same per-index specification, so they cannot diverge.

use vstd::prelude::*;
use vstd::arithmetic::power2::{pow2, lemma_pow2_pos, lemma_pow2_strictly_increases, lemma2_to64};
use rayon::iter::{IntoParallelIterator, ParallelIterator};
use num_complex::Complex32;
use crate::bits::{in_low_half, lemma_pair, pow2_exec, MAX_QUBITS, PARALLEL_THRESHOLD};
use crate::errors::EngineError;
use crate::gates::{gate_matrix_spec, GateKind, GateMatrix};
use crate::scalar::{
    c_above_cutoff, c_add, c_div_re, c_div_scalar, c_from_ints, c_int, c_log2, c_min_one, c_mul,
    c_neg, c_norm, c_norm_sqr, c_sqrt, c_sub, cabove_cutoff, cadd, cdivre, cdivs, clog2, cmin1,
    cmul, cneg, cnorm, cnormsqr, csqrt, csub, csum, sum_range,
};

verus! {

/// A pure quantum state of `2^n` complex amplitudes, initialized to the
/// all-zero basis state.
pub struct QuantumState {
    pub(crate) qubits: usize,
    pub(crate) state: Vec<Complex32>,
}

/// The amplitudes of the all-zero basis state: one at index zero, zero
/// elsewhere.
pub open spec fn initial_state_spec(qubits: nat) -> Seq<Complex32> {
    Seq::new(pow2(qubits), |i: int| if i == 0 { c_int(1, 0) } else { c_int(0, 0) })
}

/// Amplitude `i` after a single-qubit gate with matrix `g` on the bit of
/// weight `step`: the indices pair up across that bit, and each pair is
/// replaced by its image under `g`.
pub open spec fn gate_entry_spec(g: GateMatrix, s: Seq<Complex32>, step: int, i: int) -> Complex32 {
    if in_low_half(i, step) {
        cadd(cmul(g.m00, s[i]), cmul(g.m01, s[i + step]))
    } else {
        cadd(cmul(g.m10, s[i - step]), cmul(g.m11, s[i]))
    }
}

/// The whole state after a single-qubit gate sweep.
pub open spec fn gate_sweep_spec(g: GateMatrix, s: Seq<Complex32>, step: int) -> Seq<Complex32> {
    Seq::new(s.len(), |i: int| gate_entry_spec(g, s, step, i))
}

/// Amplitude `i` after a controlled-NOT: where the control bit of weight
/// `cstep` is set, the amplitude comes from the index with the target bit of
/// weight `tstep` flipped; elsewhere it is unchanged.
pub open spec fn cnot_entry_spec(s: Seq<Complex32>, cstep: int, tstep: int, i: int) -> Complex32 {
    if !in_low_half(i, cstep) {
        if in_low_half(i, tstep) {
            s[i + tstep]
        } else {
            s[i - tstep]
        }
    } else {
        s[i]
    }
}

/// The whole state after a controlled-NOT.
pub open spec fn cnot_sweep_spec(s: Seq<Complex32>, cstep: int, tstep: int) -> Seq<Complex32> {
    Seq::new(s.len(), |i: int| cnot_entry_spec(s, cstep, tstep, i))
}

/// Amplitude `i` after a controlled single-qubit transform: pairs whose
/// control bit is set are replaced by their image under `g`; the rest stay.
pub open spec fn controlled_entry_spec(
    g: GateMatrix,
    s: Seq<Complex32>,
    cstep: int,
    tstep: int,
    i: int,
) -> Complex32 {
    if !in_low_half(i, cstep) {
        gate_entry_spec(g, s, tstep, i)
    } else {
        s[i]
    }
}

/// The whole state after a controlled single-qubit transform.
pub open spec fn controlled_sweep_spec(
    g: GateMatrix,
    s: Seq<Complex32>,
    cstep: int,
    tstep: int,
) -> Seq<Complex32> {
    Seq::new(s.len(), |i: int| controlled_entry_spec(g, s, cstep, tstep, i))
}

/// The entropy contribution of one amplitude: `p * log2(p)` for its basis
/// probability `p` when `p` lies above the small positive cutoff, else zero.
pub open spec fn ent_term(c: Complex32) -> Complex32 {
    if cabove_cutoff(cnormsqr(c)) {
        cmul(cnormsqr(c), clog2(cnormsqr(c)))
    } else {
        c_int(0, 0)
    }
}

/// The normalized Shannon entropy of the basis-measurement distribution:
/// minus the sum of the per-amplitude contributions, divided by the qubit
/// count.
pub open spec fn entropy_spec(s: Seq<Complex32>, qubits: int) -> Complex32 {
    cdivre(cneg(csum(s.map_values(|c: Complex32| ent_term(c)))), c_int(qubits, 0))
}

/// The Euclidean norm of a state: the square root of the sum of the squared
/// magnitudes.
pub open spec fn norm_of(s: Seq<Complex32>) -> Complex32 {
    csqrt(csum(s.map_values(|c: Complex32| cnormsqr(c))))
}

/// One spectrum band: the band's sum divided by its size, doubled, and
/// capped above at one.
pub open spec fn band_avg(s: Seq<Complex32>, lo: int, hi: int) -> Complex32 {
    let avg = cdivre(csum(s.subrange(lo, hi)), c_int(hi - lo, 0));
    cmin1(cadd(avg, avg))
}

/// The pair update at one index, shared by both sweep strategies.
fn gate_entry(
    g: &GateMatrix,
    prev: &Vec<Complex32>,
    qubits: usize,
    target: usize,
    i: usize,
) -> (r: Complex32)
    requires
        target < qubits <= MAX_QUBITS,
        prev@.len() == pow2(qubits as nat),
        i < prev@.len(),
    ensures
        r == gate_entry_spec(*g, prev@, pow2(target as nat) as int, i as int),
{
    let step = pow2_exec(target);
    proof {
        lemma_pair(i as int, target as nat, qubits as nat);
        lemma_pow2_strictly_increases(target as nat, qubits as nat);
        if (qubits as nat) < 15 {
            lemma_pow2_strictly_increases(qubits as nat, 15nat);
        }
        lemma2_to64();
    }
    if i % (2 * step) < step {
        c_add(c_mul(g.m00, prev[i]), c_mul(g.m01, prev[i + step]))
    } else {
        c_add(c_mul(g.m10, prev[i - step]), c_mul(g.m11, prev[i]))
    }
}

/// The sequential sweep strategy: an index loop over the same per-index
/// update as the parallel strategy.
fn seq_gate_sweep(g: &GateMatrix, prev: &Vec<Complex32>, qubits: usize, target: usize) -> (r: Vec<
    Complex32,
>)
    requires
        target < qubits <= MAX_QUBITS,
        prev@.len() == pow2(qubits as nat),
    ensures
        r@ == gate_sweep_spec(*g, prev@, pow2(target as nat) as int),
{
    let dim = prev.len();
    let mut out: Vec<Complex32> = Vec::new();
    let mut i: usize = 0;
    while i < dim
        invariant
            i <= dim,
            dim == prev@.len() == pow2(qubits as nat),
            target < qubits <= MAX_QUBITS,
            out@.len() == i,
            forall|j: int|
                0 <= j < i ==> out@[j] == gate_entry_spec(
                    *g,
                    prev@,
                    pow2(target as nat) as int,
                    j,
                ),
        decreases dim - i,
    {
        let e = gate_entry(g, prev, qubits, target, i);
        out.push(e);
        i = i + 1;
    }
    proof {
        assert(out@ =~= gate_sweep_spec(*g, prev@, pow2(target as nat) as int));
    }
    out
}

/// The data-parallel sweep strategy for dimensions above the threshold.
///
/// Relies on rayon's `into_par_iter`, `map` and `collect`: a parallel map
/// over an index range collects into a vector in index order, and each
/// element is produced by the verified `gate_entry` at its own index.
#[verifier::external_body]
fn par_gate_sweep(g: &GateMatrix, prev: &Vec<Complex32>, qubits: usize, target: usize) -> (r: Vec<
    Complex32,
>)
    requires
        target < qubits <= MAX_QUBITS,
        prev@.len() == pow2(qubits as nat),
    ensures
        r@.len() == prev@.len(),
        forall|j: int|
            0 <= j < prev@.len() ==> r@[j] == gate_entry_spec(
                *g,
                prev@,
                pow2(target as nat) as int,
                j,
            ),
{
    (0..prev.len()).into_par_iter().map(|i| gate_entry(g, prev, qubits, target, i)).collect()
}

/// The controlled-NOT update at one index, shared by both sweep strategies.
fn cnot_entry(
    prev: &Vec<Complex32>,
    qubits: usize,
    control: usize,
    target: usize,
    i: usize,
) -> (r: Complex32)
    requires
        control < qubits <= MAX_QUBITS,
        target < qubits <= MAX_QUBITS,
        prev@.len() == pow2(qubits as nat),
        i < prev@.len(),
    ensures
        r == cnot_entry_spec(
            prev@,
            pow2(control as nat) as int,
            pow2(target as nat) as int,
            i as int,
        ),
{
    let cstep = pow2_exec(control);
    let tstep = pow2_exec(target);
    proof {
        lemma_pair(i as int, control as nat, qubits as nat);
        lemma_pair(i as int, target as nat, qubits as nat);
        lemma_pow2_strictly_increases(control as nat, qubits as nat);
        lemma_pow2_strictly_increases(target as nat, qubits as nat);
        if (qubits as nat) < 15 {
            lemma_pow2_strictly_increases(qubits as nat, 15nat);
        }
        lemma2_to64();
    }
    if i % (2 * cstep) >= cstep {
        if i % (2 * tstep) < tstep {
            prev[i + tstep]
        } else {
            prev[i - tstep]
        }
    } else {
        prev[i]
    }
}

/// The sequential controlled-NOT sweep.
fn seq_cnot_sweep(prev: &Vec<Complex32>, qubits: usize, control: usize, target: usize) -> (r: Vec<
    Complex32,
>)
    requires
        control < qubits <= MAX_QUBITS,
        target < qubits <= MAX_QUBITS,
        prev@.len() == pow2(qubits as nat),
    ensures
        r@ == cnot_sweep_spec(prev@, pow2(control as nat) as int, pow2(target as nat) as int),
{
    let dim = prev.len();
    let mut out: Vec<Complex32> = Vec::new();
    let mut i: usize = 0;
    while i < dim
        invariant
            i <= dim,
            dim == prev@.len() == pow2(qubits as nat),
            control < qubits <= MAX_QUBITS,
            target < qubits <= MAX_QUBITS,
            out@.len() == i,
            forall|j: int|
                0 <= j < i ==> out@[j] == cnot_entry_spec(
                    prev@,
                    pow2(control as nat) as int,
                    pow2(target as nat) as int,
                    j,
                ),
        decreases dim - i,
    {
        let e = cnot_entry(prev, qubits, control, target, i);
        out.push(e);
        i = i + 1;
    }
    proof {
        assert(out@ =~= cnot_sweep_spec(
            prev@,
            pow2(control as nat) as int,
            pow2(target as nat) as int,
        ));
    }
    out
}

/// The data-parallel controlled-NOT sweep for dimensions above the threshold.
///
/// Relies on rayon's `into_par_iter`, `map` and `collect`: a parallel map
/// over an index range collects into a vector in index order, and each
/// element is produced by the verified `cnot_entry` at its own index.
#[verifier::external_body]
fn par_cnot_sweep(prev: &Vec<Complex32>, qubits: usize, control: usize, target: usize) -> (r: Vec<
    Complex32,
>)
    requires
        control < qubits <= MAX_QUBITS,
        target < qubits <= MAX_QUBITS,
        prev@.len() == pow2(qubits as nat),
    ensures
        r@.len() == prev@.len(),
        forall|j: int|
            0 <= j < prev@.len() ==> r@[j] == cnot_entry_spec(
                prev@,
                pow2(control as nat) as int,
                pow2(target as nat) as int,
                j,
            ),
{
    (0..prev.len()).into_par_iter().map(|i| cnot_entry(prev, qubits, control, target, i)).collect()
}

impl QuantumState {
    /// How many qubits the register holds.
    pub closed spec fn qubit_count(self) -> int {
        self.qubits as int
    }

    /// The amplitude sequence.
    pub closed spec fn amps(self) -> Seq<Complex32> {
        self.state@
    }

    /// A well-formed register: a positive, bounded qubit count and exactly
    /// `2^n` amplitudes.
    pub closed spec fn wf(self) -> bool {
        &&& 1 <= self.qubits <= MAX_QUBITS
        &&& self.state@.len() == pow2(self.qubits as nat)
    }

    /// Borrows the amplitude buffer for the other engine modules.
    pub(crate) fn borrow_amps(&self) -> (r: &Vec<Complex32>)
        ensures
            r@ == self.amps(),
    {
        &self.state
    }

    /// Allocates `2^qubits` amplitudes in the all-zero basis state.
    pub fn new(qubits: usize) -> (r: QuantumState)
        requires
            1 <= qubits <= MAX_QUBITS,
        ensures
            r.wf(),
            r.qubit_count() == qubits,
            r.amps() == initial_state_spec(qubits as nat),
    {
        let dim = pow2_exec(qubits);
        let mut state: Vec<Complex32> = Vec::new();
        state.push(c_from_ints(1, 0));
        let mut i: usize = 1;
        while i < dim
            invariant
                1 <= i <= dim,
                dim == pow2(qubits as nat),
                state@.len() == i,
                state@[0] == c_int(1, 0),
                forall|j: int| 1 <= j < i ==> state@[j] == c_int(0, 0),
            decreases dim - i,
        {
            state.push(c_from_ints(0, 0));
            i = i + 1;
        }
        proof {
            assert(state@ =~= initial_state_spec(qubits as nat));
        }
        QuantumState { qubits, state }
    }

    /// Applies a single-qubit gate to the target qubit, replacing each pair
    /// of amplitudes that differ only in the target bit by its image under
    /// its gate matrix. Refuses an out-of-range target or a gate kind the
    /// single-qubit path does not recognize, leaving the state untouched.
    /// Above the dimension threshold the sweep runs data-parallel, below it
    /// sequentially; both are verified against the same per-index update.
    pub fn apply_gate(&mut self, kind: GateKind, target: usize) -> (r: Result<(), EngineError>)
        requires
            old(self).wf(),
        ensures
            final(self).wf(),
            final(self).qubit_count() == old(self).qubit_count(),
            r is Ok <==> (kind.is_single_qubit() && target < old(self).qubit_count()),
            r is Ok ==> final(self).amps() == gate_sweep_spec(
                gate_matrix_spec(kind),
                old(self).amps(),
                pow2(target as nat) as int,
            ),
            r is Err ==> final(self).amps() == old(self).amps() && r->Err_0
                == EngineError::InvalidArgument,
    {
        if target >= self.qubits {
            return Err(EngineError::InvalidArgument);
        }
        let g = match crate::gates::build_gate_matrix(kind) {
            Ok(g) => g,
            Err(e) => {
                return Err(e);
            },
        };
        let dim = self.state.len();
        let new_state = if dim > PARALLEL_THRESHOLD {
            par_gate_sweep(&g, &self.state, self.qubits, target)
        } else {
            seq_gate_sweep(&g, &self.state, self.qubits, target)
        };
        proof {
            assert(new_state@ =~= gate_sweep_spec(
                gate_matrix_spec(kind),
                self.state@,
                pow2(target as nat) as int,
            ));
        }
        self.state = new_state;
        Ok(())
    }

    /// Applies a controlled-NOT: where the control bit is set the amplitude
    /// comes from the index with the target bit flipped; elsewhere it is
    /// unchanged. Refuses out-of-range indices and a control equal to its
    /// target, leaving the state untouched.
    pub fn apply_cnot(&mut self, control: usize, target: usize) -> (r: Result<(), EngineError>)
        requires
            old(self).wf(),
        ensures
            final(self).wf(),
            final(self).qubit_count() == old(self).qubit_count(),
            r is Ok <==> (control < old(self).qubit_count() && target < old(self).qubit_count()
                && control != target),
            r is Ok ==> final(self).amps() == cnot_sweep_spec(
                old(self).amps(),
                pow2(control as nat) as int,
                pow2(target as nat) as int,
            ),
            r is Err ==> final(self).amps() == old(self).amps() && r->Err_0
                == EngineError::InvalidArgument,
    {
        if control >= self.qubits || target >= self.qubits {
            return Err(EngineError::InvalidArgument);
        }
        if control == target {
            return Err(EngineError::InvalidArgument);
        }
        let dim = self.state.len();
        let new_state = if dim > PARALLEL_THRESHOLD {
            par_cnot_sweep(&self.state, self.qubits, control, target)
        } else {
            seq_cnot_sweep(&self.state, self.qubits, control, target)
        };
        proof {
            assert(new_state@ =~= cnot_sweep_spec(
                self.state@,
                pow2(control as nat) as int,
                pow2(target as nat) as int,
            ));
        }
        self.state = new_state;
        Ok(())
    }

    /// Applies a controlled RY rotation: pairs across the target bit whose
    /// control bit is set are replaced by their image under the RY matrix;
    /// the rest stay. Refuses out-of-range indices and a control equal to
    /// its target, leaving the state untouched.
    pub fn apply_controlled_ry(
        &mut self,
        control: usize,
        target: usize,
        theta: Complex32,
    ) -> (r: Result<(), EngineError>)
        requires
            old(self).wf(),
        ensures
            final(self).wf(),
            final(self).qubit_count() == old(self).qubit_count(),
            r is Ok <==> (control < old(self).qubit_count() && target < old(self).qubit_count()
                && control != target),
            r is Ok ==> final(self).amps() == controlled_sweep_spec(
                gate_matrix_spec(GateKind::RY(theta)),
                old(self).amps(),
                pow2(control as nat) as int,
                pow2(target as nat) as int,
            ),
            r is Err ==> final(self).amps() == old(self).amps() && r->Err_0
                == EngineError::InvalidArgument,
    {
        if control >= self.qubits || target >= self.qubits {
            return Err(EngineError::InvalidArgument);
        }
        if control == target {
            return Err(EngineError::InvalidArgument);
        }
        let g = match crate::gates::build_gate_matrix(GateKind::RY(theta)) {
            Ok(g) => g,
            Err(_) => {
                return Err(EngineError::InvalidArgument);
            },
        };
        let cstep = pow2_exec(control);
        let dim = self.state.len();
        let mut out: Vec<Complex32> = Vec::new();
        let mut i: usize = 0;
        while i < dim
            invariant
                i <= dim,
                dim == self.state@.len() == pow2(self.qubits as nat),
                control < self.qubits <= MAX_QUBITS,
                target < self.qubits <= MAX_QUBITS,
                cstep == pow2(control as nat),
                g == gate_matrix_spec(GateKind::RY(theta)),
                out@.len() == i,
                self == old(self),
                forall|j: int|
                    0 <= j < i ==> out@[j] == controlled_entry_spec(
                        gate_matrix_spec(GateKind::RY(theta)),
                        self.state@,
                        pow2(control as nat) as int,
                        pow2(target as nat) as int,
                        j,
                    ),
            decreases dim - i,
        {
            proof {
                if (self.qubits as nat) < 15 {
                    lemma_pow2_strictly_increases(self.qubits as nat, 15nat);
                }
                lemma_pow2_strictly_increases(control as nat, self.qubits as nat);
                lemma2_to64();
            }
            let e = if i % (2 * cstep) >= cstep {
                gate_entry(&g, &self.state, self.qubits, target, i)
            } else {
                self.state[i]
            };
            out.push(e);
            i = i + 1;
        }
        proof {
            assert(out@ =~= controlled_sweep_spec(
                gate_matrix_spec(GateKind::RY(theta)),
                self.state@,
                pow2(control as nat) as int,
                pow2(target as nat) as int,
            ));
        }
        self.state = out;
        Ok(())
    }

    /// The energy expectation: one minus the ground-state population
    /// `|amplitude 0|^2`.
    pub fn expectation_value(&self) -> (r: Complex32)
        requires
            self.wf(),
        ensures
            r == csub(c_int(1, 0), cnormsqr(self.amps()[0])),
    {
        proof {
            lemma_pow2_pos(self.qubits as nat);
        }
        c_sub(c_from_ints(1, 0), c_norm_sqr(self.state[0]))
    }

    /// A copy of the amplitude list.
    pub fn get_state_vector(&self) -> (r: Vec<Complex32>)
        ensures
            r@ == self.amps(),
    {
        let mut out: Vec<Complex32> = Vec::new();
        let mut i: usize = 0;
        let dim = self.state.len();
        while i < dim
            invariant
                i <= dim == self.state@.len(),
                out@.len() == i,
                forall|j: int| 0 <= j < i ==> out@[j] == self.state@[j],
            decreases dim - i,
        {
            out.push(self.state[i]);
            i = i + 1;
        }
        proof {
            assert(out@ =~= self.state@);
        }
        out
    }

    /// The normalized Shannon entropy of the basis-measurement distribution:
    /// probabilities above the small positive cutoff contribute
    /// `-p * log2(p)`, and the sum is divided by the qubit count.
    pub fn entropy(&self) -> (r: Complex32)
        requires
            self.wf(),
        ensures
            r == entropy_spec(self.amps(), self.qubit_count()),
    {
        let ghost terms = self.amps().map_values(|c: Complex32| ent_term(c));
        let mut acc = c_from_ints(0, 0);
        let mut i: usize = 0;
        let dim = self.state.len();
        while i < dim
            invariant
                i <= dim == self.state@.len(),
                self.wf(),
                terms == self.amps().map_values(|c: Complex32| ent_term(c)),
                acc == csum(terms.take(i as int)),
            decreases dim - i,
        {
            let p = c_norm_sqr(self.state[i]);
            let term = if c_above_cutoff(p) {
                c_mul(p, c_log2(p))
            } else {
                c_from_ints(0, 0)
            };
            proof {
                assert(terms.take(i + 1).drop_last() =~= terms.take(i as int));
                assert(terms[i as int] == ent_term(self.state@[i as int]));
            }
            acc = c_add(acc, term);
            i = i + 1;
        }
        proof {
            assert(terms.take(dim as int) =~= terms);
        }
        c_div_re(c_neg(acc), c_from_ints(self.qubits as i16, 0))
    }

    /// The three-band resonance spectrum of the amplitude vector: the
    /// discrete Fourier transform's magnitudes, banded by
    /// [`spectrum_bands`]. The transform's values carry no name (its rounding
    /// may depend on the machine), so the transform buffer is existential
    /// here: the result is the banded magnitudes of some buffer of the
    /// state's dimension, with each band stated exactly by [`band_avg`].
    pub fn resonance(&self) -> (r: Vec<Complex32>)
        requires
            self.wf(),
        ensures
            r@.len() == 3,
            exists|b: Seq<Complex32>|
                (#[trigger] b.len()) == self.amps().len() && r@[0] == band_avg(
                    b.map_values(|c: Complex32| cnorm(c)),
                    0,
                    b.len() as int / 3,
                ) && r@[1] == band_avg(
                    b.map_values(|c: Complex32| cnorm(c)),
                    b.len() as int / 3,
                    2 * (b.len() as int / 3),
                ) && r@[2] == band_avg(
                    b.map_values(|c: Complex32| cnorm(c)),
                    2 * (b.len() as int / 3),
                    b.len() as int,
                ),
    {
        proof {
            lemma_pow2_pos(self.qubits as nat);
        }
        let buffer = fft_forward(&self.state);
        let mags = magnitudes(&buffer);
        proof {
            if (self.qubits as nat) < 15 {
                lemma_pow2_strictly_increases(self.qubits as nat, 15nat);
            }
            lemma2_to64();
        }
        let bands = spectrum_bands(&mags);
        proof {
            let b = buffer@;
            assert(mags@ =~= b.map_values(|c: Complex32| cnorm(c)));
            assert(b.len() == self.amps().len());
        }
        bands
    }

    /// Rescales every amplitude by the Euclidean norm of the state, when
    /// that norm lies above the small positive cutoff; otherwise leaves the
    /// state untouched.
    pub fn normalize(&mut self)
        requires
            old(self).wf(),
        ensures
            final(self).wf(),
            final(self).qubit_count() == old(self).qubit_count(),
            cabove_cutoff(norm_of(old(self).amps())) ==> final(self).amps() == old(self).amps()
                .map_values(|c: Complex32| cdivs(c, norm_of(old(self).amps()))),
            !cabove_cutoff(norm_of(old(self).amps())) ==> final(self).amps() == old(self).amps(),
    {
        let ghost probs = self.amps().map_values(|c: Complex32| cnormsqr(c));
        let mut acc = c_from_ints(0, 0);
        let mut i: usize = 0;
        let dim = self.state.len();
        while i < dim
            invariant
                i <= dim == self.state@.len(),
                self == old(self),
                probs == self.amps().map_values(|c: Complex32| cnormsqr(c)),
                acc == csum(probs.take(i as int)),
            decreases dim - i,
        {
            let p = c_norm_sqr(self.state[i]);
            proof {
                assert(probs.take(i + 1).drop_last() =~= probs.take(i as int));
                assert(probs[i as int] == cnormsqr(self.state@[i as int]));
            }
            acc = c_add(acc, p);
            i = i + 1;
        }
        proof {
            assert(probs.take(dim as int) =~= probs);
        }
        let nrm = c_sqrt(acc);
        if c_above_cutoff(nrm) {
            let mut out: Vec<Complex32> = Vec::new();
            let mut j: usize = 0;
            while j < dim
                invariant
                    j <= dim == self.state@.len(),
                    self == old(self),
                    nrm == norm_of(self.amps()),
                    out@.len() == j,
                    forall|k: int| 0 <= k < j ==> out@[k] == cdivs(self.state@[k], nrm),
                decreases dim - j,
            {
                out.push(c_div_scalar(self.state[j], nrm));
                j = j + 1;
            }
            proof {
                assert(out@ =~= self.amps().map_values(
                    |c: Complex32| cdivs(c, norm_of(self.amps())),
                ));
            }
            self.state = out;
        }
    }
}

/// Relies on rustfft's `FftPlanner::plan_fft_forward` and `Fft::process`: an
/// in-place forward discrete Fourier transform of a buffer whose length
/// matches the plan, leaving the length unchanged. The transform's rounding
/// may depend on the machine, so nothing more is assumed of the values.
#[verifier::external_body]
fn fft_forward(v: &Vec<Complex32>) -> (r: Vec<Complex32>)
    requires
        v@.len() >= 1,
    ensures
        r@.len() == v@.len(),
{
    let mut buffer = v.clone();
    let mut planner = rustfft::FftPlanner::new();
    let fft = planner.plan_fft_forward(buffer.len());
    fft.process(&mut buffer);
    buffer
}

/// The magnitude of every entry.
fn magnitudes(v: &Vec<Complex32>) -> (r: Vec<Complex32>)
    ensures
        r@.len() == v@.len(),
        forall|i: int| 0 <= i < v@.len() ==> r@[i] == cnorm(v@[i]),
{
    let mut out: Vec<Complex32> = Vec::new();
    let mut i: usize = 0;
    let dim = v.len();
    while i < dim
        invariant
            i <= dim == v@.len(),
            out@.len() == i,
            forall|j: int| 0 <= j < i ==> out@[j] == cnorm(v@[j]),
        decreases dim - i,
    {
        out.push(c_norm(v[i]));
        i = i + 1;
    }
    out
}

/// One band's reported value: the band sum divided by the band size,
/// doubled, and capped above at one.
fn band_value(sum: Complex32, count: usize) -> (r: Complex32)
    requires
        count <= 0x7fff,
    ensures
        r == cmin1(cadd(cdivre(sum, c_int(count as int, 0)), cdivre(sum, c_int(count as int, 0)))),
{
    let avg = c_div_re(sum, c_from_ints(count as i16, 0));
    c_min_one(c_add(avg, avg))
}

/// Partitions a magnitude vector into three contiguous bands, as equal as
/// integer division allows, and reports each band's doubled average capped
/// above at one.
pub fn spectrum_bands(mags: &Vec<Complex32>) -> (r: Vec<Complex32>)
    requires
        mags@.len() <= 0x8000,
    ensures
        r@.len() == 3,
        r@[0] == band_avg(mags@, 0, mags@.len() as int / 3),
        r@[1] == band_avg(mags@, mags@.len() as int / 3, 2 * (mags@.len() as int / 3)),
        r@[2] == band_avg(mags@, 2 * (mags@.len() as int / 3), mags@.len() as int),
{
    let len = mags.len();
    let chunk = len / 3;
    let s0 = sum_range(mags, 0, chunk);
    let s1 = sum_range(mags, chunk, 2 * chunk);
    let s2 = sum_range(mags, 2 * chunk, len);
    let b0 = band_value(s0, chunk);
    let b1 = band_value(s1, chunk);
    let b2 = band_value(s2, len - 2 * chunk);
    let mut out: Vec<Complex32> = Vec::new();
    out.push(b0);
    out.push(b1);
    out.push(b2);
    out
}

/// The shape of a well-formed register, for the modules that build on it.
pub proof fn lemma_state_shape(s: &QuantumState)
    requires
        s.wf(),
    ensures
        1 <= s.qubit_count() <= MAX_QUBITS,
        s.amps().len() == pow2(s.qubit_count() as nat),
{
}

/// The sequential and the data-parallel sweep strategies agree: any two
/// outputs that satisfy their common contract — entry `i` holds the pair
/// update of the same prior state at index `i`, for the same gate matrix and
/// target bit — are equal, amplitude for amplitude.
pub proof fn lemma_sweep_strategies_agree(
    g: GateMatrix,
    prev: Seq<Complex32>,
    step: int,
    a: Seq<Complex32>,
    b: Seq<Complex32>,
)
    requires
        a.len() == prev.len(),
        b.len() == prev.len(),
        forall|i: int| 0 <= i < prev.len() ==> a[i] == gate_entry_spec(g, prev, step, i),
        forall|i: int| 0 <= i < prev.len() ==> b[i] == gate_entry_spec(g, prev, step, i),
    ensures
        a == b,
{
    assert(a =~= b);
}

} // verus!
