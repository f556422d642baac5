//! A small linear-regression toolkit, generic over the scalar type.
//!
//! The library owns the rules: the rectangular design matrix and the column
//! of ones in front of it, which shapes a fit or a training run accepts and
//! which failure each rejected input gives, what a model holds after each
//! call, which sample, column and weight meet in each step of a descent
//! epoch and how many epochs run, and which coordinate of which point each
//! entry of a finite-difference gradient or Hessian is taken at. The scalar
//! arithmetic itself is handed in by the caller as plain callables, so the
//! same verified code serves any numeric backend.

pub mod descent;
pub mod design;
pub mod error;
pub mod finite_diff;
pub mod model;
