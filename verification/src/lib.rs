//! Accounting core of a fixed-price token sale.
//!
//! A single authority commits a fungible-token supply into a program-controlled
//! vault; buyers pay a fixed native-currency price per whole token, subject to a
//! lifetime per-buyer cap. This crate holds the verified state model and the
//! three state transitions (vault initialization, vault top-up, purchase); the
//! host runtime that persists accounts and performs the actual balance moves is
//! a collaborator outside of it.

pub mod config;
pub mod errors;
pub mod laws;
pub mod purchases;
pub mod sale;
