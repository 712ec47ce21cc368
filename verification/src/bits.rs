//! Index arithmetic for the tensor-product layout of a register of `n`
//! qubits: basis index `i` encodes qubit `k` as the bit of weight `2^k`.
//! Gate application pairs index `i` with `i + 2^k` or `i - 2^k` according to
//! which half of its block of `2^(k+1)` consecutive indices it lies in.

use vstd::prelude::*;
use vstd::arithmetic::power2::*;
use vstd::arithmetic::div_mod::*;

verus! {

/// The largest register size the engine accepts; it keeps every band size and
/// qubit count exactly convertible to single precision through `i16`, and
/// every dimension product within `usize`.
pub const MAX_QUBITS: usize = 15;

/// Dimensions strictly above this bound are swept with the data-parallel
/// strategy; smaller ones with the sequential one.
pub const PARALLEL_THRESHOLD: usize = 1024;

/// Whether basis index `i` lies in the first half of its block of `2 * step`
/// consecutive indices, i.e. whether the bit of weight `step` is clear.
pub open spec fn in_low_half(i: int, step: int) -> bool {
    i % (2 * step) < step
}

/// Computes two to the power `k`.
pub fn pow2_exec(k: usize) -> (r: usize)
    requires
        k <= 30,
    ensures
        r as nat == pow2(k as nat),
        r >= 1,
{
    proof {
        lemma2_to64();
    }
    let mut r: usize = 1;
    let mut i: usize = 0;
    while i < k
        invariant
            i <= k <= 30,
            r as nat == pow2(i as nat),
        decreases k - i,
    {
        proof {
            lemma_pow2_strictly_increases((i + 1) as nat, 31nat);
            lemma2_to64();
            assert(pow2((i + 1) as nat) == 2 * pow2(i as nat)) by {
                lemma_pow2_adds(i as nat, 1nat);
            }
        }
        r = r * 2;
        i = i + 1;
    }
    proof {
        lemma_pow2_pos(k as nat);
    }
    r
}

/// Bounds for the partner index of `i` under the bit of weight `2^t`, inside
/// a register of dimension `2^n`: a low-half index has its partner `2^t`
/// above it and still in range; a high-half index has it `2^t` below.
pub proof fn lemma_pair(i: int, t: nat, n: nat)
    requires
        t < n,
        0 <= i < pow2(n),
    ensures
        in_low_half(i, pow2(t) as int) ==> i + pow2(t) < pow2(n),
        !in_low_half(i, pow2(t) as int) ==> i - pow2(t) >= 0,
{
    let p = pow2(t) as int;
    lemma_pow2_pos(t);
    lemma2_to64();
    assert(pow2((t + 1) as nat) == 2 * pow2(t)) by {
        lemma_pow2_adds(t, 1nat);
    }
    let q = 2 * p;
    lemma_fundamental_div_mod(i, q);
    lemma_mod_division_less_than_divisor(i, q);
    let k = i / q;
    let r = i % q;
    lemma_pow2_adds((t + 1) as nat, (n - t - 1) as nat);
    let m = pow2((n - t - 1) as nat) as int;
    lemma_pow2_pos((n - t - 1) as nat);
    assert(pow2(n) == q * m);
    assert(k >= 0 && k < m) by (nonlinear_arith)
        requires
            i == q * k + r,
            0 <= r < q,
            0 <= i < q * m,
            q > 0,
    {}
    if r < p {
        assert(i + p < q * (k + 1)) by (nonlinear_arith)
            requires
                i == q * k + r,
                r < p,
                q == 2 * p,
        {}
        assert(q * (k + 1) <= q * m) by (nonlinear_arith)
            requires
                k < m,
                q > 0,
        {}
    } else {
        assert(i - p >= 0) by (nonlinear_arith)
            requires
                i == q * k + r,
                r >= p,
                k >= 0,
                q > 0,
        {}
    }
}

/// The square of a register dimension of at most `2^MAX_QUBITS` fits in
/// `usize`, and every dimension is positive.
pub proof fn lemma_dim_square(n: nat)
    requires
        n <= 15,
    ensures
        pow2(n) >= 1,
        pow2(n) * pow2(n) == pow2(2 * n),
        pow2(2 * n) <= pow2(30nat),
        pow2(30nat) < usize::MAX,
{
    lemma_pow2_pos(n);
    lemma_pow2_adds(n, n);
    if 2 * n < 30 {
        lemma_pow2_strictly_increases(2 * n, 30nat);
    }
    lemma2_to64();
}

} // verus!
