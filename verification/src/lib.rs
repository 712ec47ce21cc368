//! A multi-qubit quantum register simulator: pure-state evolution under
//! elementary gates, a density-matrix view with simplified decoherence
//! channels, and scalar diagnostics derived from either representation.
//!
//! Amplitudes are single-precision complex numbers from `num_complex`; they
//! are opaque to the verifier, so every contract speaks of them through named
//! results of the trusted arithmetic in [`scalar`], while all index and
//! tensor-product structure is stated and proved exactly.

pub mod bits;
pub mod circuit;
pub mod density;
pub mod errors;
pub mod gates;
pub mod scalar;
pub mod state;
