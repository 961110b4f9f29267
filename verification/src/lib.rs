//! Preconditioned Conjugate Gradient solver support for sparse linear
//! systems in compressed sparse-row (CSR) form.
//!
//! The library verifies the discrete core of a Jacobi-preconditioned CG
//! solver: the structural side of the CSR format (validation, row-range
//! lookup, locating each row's diagonal entry) and the control state
//! machine of the iteration (early exit, breakdown, convergence, and the
//! iteration cap). The floating-point arithmetic itself — matrix-vector
//! products, dot products, norms — is carried out by the host that drives
//! the solve, one iteration at a time, reporting each decision bit back
//! to the verified controller.

pub mod csr;

pub mod control;
