//! The library of gate matrices: the two-by-two unitary of each elementary gate
//! kind, with the standard textbook definitions. The matrix entries are
//! single-precision complex numbers, so each one is stated as an exact
//! expression over the named scalar operations of [`crate::scalar`], and the
//! builders are verified against those expressions.

use vstd::prelude::*;
use crate::scalar::{
    c_cos, c_div_re, c_from_ints, c_int, c_make, c_neg, c_sin, c_sqrt, ccos, cdivre, cmake, cneg,
    csin, csqrt,
};
use crate::errors::EngineError;

verus! {

/// One elementary gate kind of the circuit model, carrying its rotation
/// angle (in radians, as the real part) where the kind is parameterized.
#[derive(Clone, Copy)]
pub enum GateKind {
    H,
    X,
    Y,
    Z,
    S,
    T,
    RX(num_complex::Complex32),
    RY(num_complex::Complex32),
    RZ(num_complex::Complex32),
    CNOT,
    CRY(num_complex::Complex32),
    CRZ(num_complex::Complex32),
}

impl GateKind {
    /// Whether the low-level single-qubit apply path recognizes this kind.
    pub open spec fn is_single_qubit(self) -> bool {
        match self {
            GateKind::CNOT => false,
            GateKind::CRY(_) => false,
            GateKind::CRZ(_) => false,
            _ => true,
        }
    }
}

/// A two-by-two complex matrix, row major.
#[derive(Clone, Copy)]
pub struct GateMatrix {
    pub m00: num_complex::Complex32,
    pub m01: num_complex::Complex32,
    pub m10: num_complex::Complex32,
    pub m11: num_complex::Complex32,
}

/// Half of the real part of an angle.
pub open spec fn chalf(theta: num_complex::Complex32) -> num_complex::Complex32 {
    cdivre(theta, c_int(2, 0))
}

/// One over the square root of two.
pub open spec fn cinv_sqrt2() -> num_complex::Complex32 {
    cdivre(c_int(1, 0), csqrt(c_int(2, 0)))
}

/// The matrix of a single-qubit gate kind: Hadamard, the Pauli matrices, the
/// S and T phase gates, and the RX/RY/RZ rotations built from the cosine and
/// sine of half the angle.
pub open spec fn gate_matrix_spec(kind: GateKind) -> GateMatrix {
    match kind {
        GateKind::H => {
            let s = cinv_sqrt2();
            GateMatrix { m00: s, m01: s, m10: s, m11: cneg(s) }
        },
        GateKind::X => GateMatrix {
            m00: c_int(0, 0),
            m01: c_int(1, 0),
            m10: c_int(1, 0),
            m11: c_int(0, 0),
        },
        GateKind::Y => GateMatrix {
            m00: c_int(0, 0),
            m01: c_int(0, -1),
            m10: c_int(0, 1),
            m11: c_int(0, 0),
        },
        GateKind::Z => GateMatrix {
            m00: c_int(1, 0),
            m01: c_int(0, 0),
            m10: c_int(0, 0),
            m11: c_int(-1, 0),
        },
        GateKind::S => GateMatrix {
            m00: c_int(1, 0),
            m01: c_int(0, 0),
            m10: c_int(0, 0),
            m11: c_int(0, 1),
        },
        GateKind::T => {
            let s = cinv_sqrt2();
            GateMatrix { m00: c_int(1, 0), m01: c_int(0, 0), m10: c_int(0, 0), m11: cmake(s, s) }
        },
        GateKind::RX(theta) => {
            let c = ccos(chalf(theta));
            let s = csin(chalf(theta));
            let mis = cmake(c_int(0, 0), cneg(s));
            GateMatrix { m00: c, m01: mis, m10: mis, m11: c }
        },
        GateKind::RY(theta) => {
            let c = ccos(chalf(theta));
            let s = csin(chalf(theta));
            GateMatrix { m00: c, m01: cneg(s), m10: s, m11: c }
        },
        GateKind::RZ(phi) => {
            let h = chalf(phi);
            let nh = cneg(h);
            GateMatrix {
                m00: cmake(ccos(nh), csin(nh)),
                m01: c_int(0, 0),
                m10: c_int(0, 0),
                m11: cmake(ccos(h), csin(h)),
            }
        },
        _ => arbitrary(),
    }
}

/// Builds the matrix of a single-qubit gate kind; refuses the two-qubit
/// kinds, which the single-qubit apply path does not recognize.
pub fn build_gate_matrix(kind: GateKind) -> (r: Result<GateMatrix, EngineError>)
    ensures
        r is Ok <==> kind.is_single_qubit(),
        r is Ok ==> r->Ok_0 == gate_matrix_spec(kind),
        r is Err ==> r->Err_0 == EngineError::InvalidArgument,
{
    let zero = c_from_ints(0, 0);
    let one = c_from_ints(1, 0);
    match kind {
        GateKind::H => {
            let s = c_div_re(one, c_sqrt(c_from_ints(2, 0)));
            Ok(GateMatrix { m00: s, m01: s, m10: s, m11: c_neg(s) })
        },
        GateKind::X => Ok(GateMatrix { m00: zero, m01: one, m10: one, m11: zero }),
        GateKind::Y => Ok(GateMatrix {
            m00: zero,
            m01: c_from_ints(0, -1),
            m10: c_from_ints(0, 1),
            m11: zero,
        }),
        GateKind::Z => Ok(GateMatrix { m00: one, m01: zero, m10: zero, m11: c_from_ints(-1, 0) }),
        GateKind::S => Ok(GateMatrix { m00: one, m01: zero, m10: zero, m11: c_from_ints(0, 1) }),
        GateKind::T => {
            let s = c_div_re(one, c_sqrt(c_from_ints(2, 0)));
            Ok(GateMatrix { m00: one, m01: zero, m10: zero, m11: c_make(s, s) })
        },
        GateKind::RX(theta) => {
            let h = c_div_re(theta, c_from_ints(2, 0));
            let c = c_cos(h);
            let s = c_sin(h);
            let mis = c_make(zero, c_neg(s));
            Ok(GateMatrix { m00: c, m01: mis, m10: mis, m11: c })
        },
        GateKind::RY(theta) => {
            let h = c_div_re(theta, c_from_ints(2, 0));
            let c = c_cos(h);
            let s = c_sin(h);
            Ok(GateMatrix { m00: c, m01: c_neg(s), m10: s, m11: c })
        },
        GateKind::RZ(phi) => {
            let h = c_div_re(phi, c_from_ints(2, 0));
            let nh = c_neg(h);
            Ok(GateMatrix {
                m00: c_make(c_cos(nh), c_sin(nh)),
                m01: zero,
                m10: zero,
                m11: c_make(c_cos(h), c_sin(h)),
            })
        },
        GateKind::CNOT => Err(EngineError::InvalidArgument),
        GateKind::CRY(_) => Err(EngineError::InvalidArgument),
        GateKind::CRZ(_) => Err(EngineError::InvalidArgument),
    }
}

} // verus!
