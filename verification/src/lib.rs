//! An adaptive embedded Runge-Kutta (Dormand-Prince 5(4)) integration library.
//!
//! The numerical heart of the method is carried here in exact form: the
//! Butcher tableau is a table of rational coefficients whose defining
//! identities (stage-node consistency, weight rows summing to one, the
//! first-same-as-last property) are proved, the time-tagged state vector
//! and its algebra are modelled over exact rationals, and the adaptive
//! step bookkeeping (step and rejection counters, accept/reject verdicts)
//! is verified. The double-precision driver that evaluates the stages at
//! run time sits outside the library and draws its coefficients and its
//! bookkeeping from here.

pub mod dop54;
pub mod io_config;
pub mod n_body;
pub mod rational;
pub mod smp_vector;
