//! The mixed-state engine: a flattened `2^n x 2^n` complex matrix, built from
//! a finished pure state by outer product and mutated only by simplified
//! decoherence channels. Entry `row * dim + col` holds `<row| rho |col>`.
//!
//! The noise channels here are explicit approximations: amplitude damping
//! multiplies every off-diagonal entry by `sqrt(1 - p)` once per qubit of the
//! register (compounding, with no population transfer), and phase damping
//! applies the same factor exactly once. The contracts state those
//! approximations exactly as implemented.

use vstd::prelude::*;
use vstd::arithmetic::power2::{pow2, lemma_pow2_pos};
use vstd::arithmetic::div_mod::{lemma_fundamental_div_mod, lemma_mod_division_less_than_divisor};
use rayon::iter::{IntoParallelIterator, ParallelIterator};
use num_complex::Complex32;
use crate::bits::{lemma_dim_square, pow2_exec, MAX_QUBITS};
use crate::scalar::{
    c_add, c_clamp_unit, c_conj, c_from_ints, c_int, c_min_one, c_mul, c_mul_scalar, c_norm_sqr,
    c_re, c_sqrt, c_sub, cadd, cclamp01, cconj, cmin1, cmul, cmuls, cnormsqr, cre, csqrt, csub,
    csum, sum_range,
};
use crate::state::QuantumState;

verus! {

/// A density matrix of `2^n x 2^n` complex entries, row major.
pub struct DensityMatrix {
    pub(crate) qubits: usize,
    pub(crate) matrix: Vec<Complex32>,
}

/// Entry `idx` of the outer product `|psi><psi|`: the amplitude of the row
/// times the conjugated amplitude of the column.
pub open spec fn outer_entry_spec(s: Seq<Complex32>, dim: int, idx: int) -> Complex32 {
    cmul(s[idx / dim], cconj(s[idx % dim]))
}

/// The flattened outer product of a state with itself.
pub open spec fn outer_spec(s: Seq<Complex32>) -> Seq<Complex32> {
    Seq::new(s.len() * s.len(), |idx: int| outer_entry_spec(s, s.len() as int, idx))
}

/// Entry `idx` after one off-diagonal scaling pass: diagonal entries stay,
/// off-diagonal ones are scaled by the real factor `f`.
pub open spec fn scale_entry_spec(m: Seq<Complex32>, dim: int, f: Complex32, idx: int) -> Complex32 {
    if idx / dim == idx % dim {
        m[idx]
    } else {
        cmuls(m[idx], f)
    }
}

/// The whole matrix after one off-diagonal scaling pass.
pub open spec fn scale_off_spec(m: Seq<Complex32>, dim: int, f: Complex32) -> Seq<Complex32> {
    Seq::new(m.len(), |idx: int| scale_entry_spec(m, dim, f, idx))
}

/// The whole matrix after `k` off-diagonal scaling passes.
pub open spec fn scale_off_n_spec(m: Seq<Complex32>, dim: int, f: Complex32, k: nat) -> Seq<
    Complex32,
>
    decreases k,
{
    if k == 0 {
        m
    } else {
        scale_off_spec(scale_off_n_spec(m, dim, f, (k - 1) as nat), dim, f)
    }
}

/// The decay factor of both damping channels: the square root of one minus
/// the probability clamped into the unit interval.
pub open spec fn damp_factor(p: Complex32) -> Complex32 {
    csqrt(csub(c_int(1, 0), cclamp01(p)))
}

/// The real parts of the matrix diagonal: the basis-measurement
/// probabilities.
pub open spec fn diag_spec(m: Seq<Complex32>, dim: int) -> Seq<Complex32> {
    Seq::new(dim as nat, |i: int| cre(m[i * dim + i]))
}

/// One band of the density-matrix resonance: the band's sum, doubled, capped
/// above at one (no averaging, unlike the pure-state spectrum).
pub open spec fn band_sum2(s: Seq<Complex32>, lo: int, hi: int) -> Complex32 {
    let sum = csum(s.subrange(lo, hi));
    cmin1(cadd(sum, sum))
}

/// The three-band summary of the diagonal probabilities.
pub open spec fn dm_resonance_spec(m: Seq<Complex32>, dim: int) -> Seq<Complex32> {
    let d = diag_spec(m, dim);
    seq![
        band_sum2(d, 0, dim / 3),
        band_sum2(d, dim / 3, 2 * (dim / 3)),
        band_sum2(d, 2 * (dim / 3), dim),
    ]
}

/// The outer-product entry at one flattened index.
fn outer_entry(s: &Vec<Complex32>, idx: usize) -> (r: Complex32)
    requires
        s@.len() >= 1,
        idx < s@.len() * s@.len(),
    ensures
        r == outer_entry_spec(s@, s@.len() as int, idx as int),
{
    let dim = s.len();
    proof {
        let x = idx as int;
        let d = dim as int;
        lemma_fundamental_div_mod(x, d);
        lemma_mod_division_less_than_divisor(x, d);
        assert(x / d < d) by (nonlinear_arith)
            requires
                x == d * (x / d) + x % d,
                0 <= x % d,
                x < d * d,
                d >= 1,
        {}
    }
    let row = idx / dim;
    let col = idx % dim;
    c_mul(s[row], c_conj(s[col]))
}

/// The outer product of a state with itself, computed data-parallel.
///
/// Relies on rayon's `into_par_iter`, `map` and `collect`: a parallel map
/// over an index range collects into a vector in index order, and each
/// element is produced by the verified `outer_entry` at its own index.
#[verifier::external_body]
fn par_outer(s: &Vec<Complex32>, total: usize) -> (r: Vec<Complex32>)
    requires
        s@.len() >= 1,
        total == s@.len() * s@.len(),
    ensures
        r@.len() == s@.len() * s@.len(),
        forall|idx: int|
            0 <= idx < r@.len() ==> r@[idx] == outer_entry_spec(s@, s@.len() as int, idx),
{
    (0..total).into_par_iter().map(|idx| outer_entry(s, idx)).collect()
}

/// One off-diagonal scaling at one flattened index.
fn scale_offdiag_entry(m: &Vec<Complex32>, dim: usize, f: Complex32, idx: usize) -> (r: Complex32)
    requires
        dim >= 1,
        idx < m@.len(),
    ensures
        r == scale_entry_spec(m@, dim as int, f, idx as int),
{
    if idx / dim == idx % dim {
        m[idx]
    } else {
        c_mul_scalar(m[idx], f)
    }
}

/// One off-diagonal scaling pass over the whole matrix, computed
/// data-parallel.
///
/// Relies on rayon's `into_par_iter`, `map` and `collect`: a parallel map
/// over an index range collects into a vector in index order, and each
/// element is produced by the verified `scale_offdiag_entry` at its own
/// index.
#[verifier::external_body]
fn par_scale_offdiag(m: &Vec<Complex32>, dim: usize, f: Complex32) -> (r: Vec<Complex32>)
    requires
        dim >= 1,
    ensures
        r@.len() == m@.len(),
        forall|idx: int|
            0 <= idx < r@.len() ==> r@[idx] == scale_entry_spec(m@, dim as int, f, idx),
{
    (0..m.len()).into_par_iter().map(|idx| scale_offdiag_entry(m, dim, f, idx)).collect()
}

impl DensityMatrix {
    /// How many qubits the register holds.
    pub closed spec fn qubit_count(self) -> int {
        self.qubits as int
    }

    /// The flattened matrix entries, row major.
    pub closed spec fn entries(self) -> Seq<Complex32> {
        self.matrix@
    }

    /// A well-formed density matrix: a positive, bounded qubit count and
    /// exactly `2^n * 2^n` entries.
    pub closed spec fn wf(self) -> bool {
        &&& 1 <= self.qubits <= MAX_QUBITS
        &&& self.matrix@.len() == pow2(self.qubits as nat) * pow2(self.qubits as nat)
    }

    /// Allocates the projector onto the all-zero basis state: entry zero is
    /// one, every other entry is zero.
    pub fn new(qubits: usize) -> (r: DensityMatrix)
        requires
            1 <= qubits <= MAX_QUBITS,
        ensures
            r.wf(),
            r.qubit_count() == qubits,
            r.entries()[0] == c_int(1, 0),
            forall|i: int| 1 <= i < r.entries().len() ==> r.entries()[i] == c_int(0, 0),
    {
        proof {
            lemma_dim_square(qubits as nat);
        }
        let dim = pow2_exec(qubits);
        let total = dim * dim;
        proof {
            assert(total >= 1) by (nonlinear_arith)
                requires
                    dim >= 1,
                    total == dim * dim,
            {}
        }
        let mut matrix: Vec<Complex32> = Vec::new();
        matrix.push(c_from_ints(1, 0));
        let mut i: usize = 1;
        while i < total
            invariant
                1 <= i <= total,
                matrix@.len() == i,
                matrix@[0] == c_int(1, 0),
                forall|j: int| 1 <= j < i ==> matrix@[j] == c_int(0, 0),
            decreases total - i,
        {
            matrix.push(c_from_ints(0, 0));
            i = i + 1;
        }
        DensityMatrix { qubits, matrix }
    }

    /// Replaces the whole matrix by the outer product `|psi><psi|` of a pure
    /// state over the same register.
    pub fn from_pure_state(&mut self, state: &QuantumState)
        requires
            old(self).wf(),
            state.wf(),
            state.qubit_count() == old(self).qubit_count(),
        ensures
            final(self).wf(),
            final(self).qubit_count() == old(self).qubit_count(),
            final(self).entries() == outer_spec(state.amps()),
    {
        proof {
            lemma_dim_square(self.qubits as nat);
            lemma_pow2_pos(self.qubits as nat);
            crate::state::lemma_state_shape(state);
        }
        let amps = state.borrow_amps();
        let dim = amps.len();
        let total = dim * dim;
        let new_matrix = par_outer(amps, total);
        proof {
            assert(new_matrix@ =~= outer_spec(state.amps()));
        }
        self.matrix = new_matrix;
    }

    /// Applies the simplified amplitude-damping channel: every off-diagonal
    /// entry is multiplied by `sqrt(1 - p)` once per qubit of the register
    /// (the decay compounds; no population is transferred).
    pub fn apply_amplitude_damping(&mut self, prob: Complex32)
        requires
            old(self).wf(),
        ensures
            final(self).wf(),
            final(self).qubit_count() == old(self).qubit_count(),
            final(self).entries() == scale_off_n_spec(
                old(self).entries(),
                pow2(old(self).qubit_count() as nat) as int,
                damp_factor(prob),
                old(self).qubit_count() as nat,
            ),
    {
        let f = c_sqrt(c_sub(c_from_ints(1, 0), c_clamp_unit(prob)));
        let dim = pow2_exec(self.qubits);
        let qubits = self.qubits;
        let mut q: usize = 0;
        while q < qubits
            invariant
                q <= qubits,
                self.qubits == old(self).qubits,
                old(self).wf(),
                qubits == self.qubits,
                dim >= 1,
                dim == pow2(self.qubits as nat),
                f == damp_factor(prob),
                self.matrix@ == scale_off_n_spec(
                    old(self).matrix@,
                    dim as int,
                    damp_factor(prob),
                    q as nat,
                ),
            decreases qubits - q,
        {
            let next = par_scale_offdiag(&self.matrix, dim, f);
            proof {
                assert(next@ =~= scale_off_spec(self.matrix@, dim as int, damp_factor(prob)));
            }
            self.matrix = next;
            q = q + 1;
        }
        proof {
            lemma_scale_off_n_len(old(self).matrix@, dim as int, damp_factor(prob), qubits as nat);
        }
    }

    /// Applies the phase-damping channel: every off-diagonal entry is
    /// multiplied by `sqrt(1 - p)` exactly once; the diagonal stays.
    pub fn apply_phase_damping(&mut self, prob: Complex32)
        requires
            old(self).wf(),
        ensures
            final(self).wf(),
            final(self).qubit_count() == old(self).qubit_count(),
            final(self).entries() == scale_off_spec(
                old(self).entries(),
                pow2(old(self).qubit_count() as nat) as int,
                damp_factor(prob),
            ),
    {
        let f = c_sqrt(c_sub(c_from_ints(1, 0), c_clamp_unit(prob)));
        let dim = pow2_exec(self.qubits);
        let next = par_scale_offdiag(&self.matrix, dim, f);
        proof {
            assert(next@ =~= scale_off_spec(self.matrix@, dim as int, damp_factor(prob)));
        }
        self.matrix = next;
    }

    /// The energy expectation of the mixed state: one minus the real part of
    /// the ground-state population `<0| rho |0>`.
    pub fn expectation_value(&self) -> (r: Complex32)
        requires
            self.wf(),
        ensures
            r == csub(c_int(1, 0), cre(self.entries()[0])),
    {
        proof {
            lemma_dim_square(self.qubits as nat);
            lemma_pow2_pos(self.qubits as nat);
            assert(self.matrix@.len() >= 1) by (nonlinear_arith)
                requires
                    self.matrix@.len() == pow2(self.qubits as nat) * pow2(self.qubits as nat),
                    pow2(self.qubits as nat) >= 1,
            {}
        }
        c_sub(c_from_ints(1, 0), c_re(self.matrix[0]))
    }

    /// The linear entropy `1 - Tr(rho^2)`, computed as one minus the sum of
    /// the squared magnitudes of all entries, in index order.
    pub fn entropy(&self) -> (r: Complex32)
        requires
            self.wf(),
        ensures
            r == csub(
                c_int(1, 0),
                csum(self.entries().map_values(|c: Complex32| cnormsqr(c))),
            ),
    {
        let ghost probs = self.entries().map_values(|c: Complex32| cnormsqr(c));
        let mut acc = c_from_ints(0, 0);
        let mut i: usize = 0;
        let total = self.matrix.len();
        while i < total
            invariant
                i <= total == self.matrix@.len(),
                probs == self.entries().map_values(|c: Complex32| cnormsqr(c)),
                acc == csum(probs.take(i as int)),
            decreases total - i,
        {
            let p = c_norm_sqr(self.matrix[i]);
            proof {
                assert(probs.take(i + 1).drop_last() =~= probs.take(i as int));
                assert(probs[i as int] == cnormsqr(self.matrix@[i as int]));
            }
            acc = c_add(acc, p);
            i = i + 1;
        }
        proof {
            assert(probs.take(total as int) =~= probs);
        }
        c_sub(c_from_ints(1, 0), acc)
    }

    /// The three-band resonance of the mixed state: the diagonal
    /// probabilities are partitioned into three contiguous bands, as equal as
    /// integer division allows, and each band's sum is doubled and capped
    /// above at one. No Fourier transform is involved, unlike the pure-state
    /// spectrum; the asymmetry is part of the design.
    pub fn resonance(&self) -> (r: Vec<Complex32>)
        requires
            self.wf(),
        ensures
            r@ == dm_resonance_spec(self.entries(), pow2(self.qubit_count() as nat) as int),
    {
        proof {
            lemma_dim_square(self.qubits as nat);
        }
        let dim = pow2_exec(self.qubits);
        let total = self.matrix.len();
        let mut diag: Vec<Complex32> = Vec::new();
        let mut i: usize = 0;
        while i < dim
            invariant
                i <= dim,
                dim == pow2(self.qubits as nat),
                self.wf(),
                total == self.matrix@.len(),
                self.matrix@.len() == dim * dim,
                diag@.len() == i,
                forall|j: int|
                    0 <= j < i ==> diag@[j] == cre(self.matrix@[j * dim as int + j]),
            decreases dim - i,
        {
            proof {
                let x = i as int;
                let d = dim as int;
                assert(x * d + x < d * d) by (nonlinear_arith)
                    requires
                        0 <= x < d,
                {}
            }
            diag.push(c_re(self.matrix[i * dim + i]));
            i = i + 1;
        }
        proof {
            assert(diag@ =~= diag_spec(self.matrix@, dim as int));
            lemma_fundamental_div_mod(dim as int, 3);
        }
        let chunk = dim / 3;
        let s0 = sum_range(&diag, 0, chunk);
        let s1 = sum_range(&diag, chunk, 2 * chunk);
        let s2 = sum_range(&diag, 2 * chunk, dim);
        let b0 = c_min_one(c_add(s0, s0));
        let b1 = c_min_one(c_add(s1, s1));
        let b2 = c_min_one(c_add(s2, s2));
        let mut out: Vec<Complex32> = Vec::new();
        out.push(b0);
        out.push(b1);
        out.push(b2);
        proof {
            assert(out@ =~= dm_resonance_spec(self.entries(), pow2(self.qubit_count() as nat) as int));
        }
        out
    }
}

/// An off-diagonal scaling pass — and with it either damping channel —
/// leaves every diagonal entry of the matrix exactly as it was, whatever the
/// factor.
pub proof fn lemma_damping_preserves_diagonal(m: Seq<Complex32>, dim: int, f: Complex32, idx: int)
    requires
        0 <= idx < m.len(),
        idx / dim == idx % dim,
    ensures
        scale_off_spec(m, dim, f)[idx] == m[idx],
{
}

/// The shape of a well-formed density matrix, for callers that see its
/// well-formedness only as an opaque fact.
pub proof fn lemma_density_shape(dm: &DensityMatrix)
    requires
        dm.wf(),
    ensures
        1 <= dm.qubit_count() <= MAX_QUBITS,
        dm.entries().len() == pow2(dm.qubit_count() as nat) * pow2(dm.qubit_count() as nat),
{
}

/// Off-diagonal scaling passes keep the matrix length.
pub proof fn lemma_scale_off_n_len(m: Seq<Complex32>, dim: int, f: Complex32, k: nat)
    ensures
        scale_off_n_spec(m, dim, f, k).len() == m.len(),
    decreases k,
{
    if k > 0 {
        lemma_scale_off_n_len(m, dim, f, (k - 1) as nat);
    }
}

} // verus!
