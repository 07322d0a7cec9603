//! Formally, a k-state Turing machine is a 7-tuple M = (Q, Gamma, b, Sigma, delta, q0, F),
//! where
//!
//! * Q is the set of k states {q0, q1, ..., qt}
//! * Gamma is the tape alphabet
//! * b is the blank symbol
//! * Sigma is the set of input symbols
//! * delta : Q x Gamma -> (Q union F) x Gamma x {L, R} is the transition function
//! * q0 is the start state
//! * F is the set of halting states
//!
//! A Turing machine's states make up the Turing machine's easily-accessible,
//! finite memory. The tape alphabet symbols correspond to the symbols that can
//! be written on the Turing machine's infinite tape.
//!
//! The halting states are not named here: a machine halts as soon as delta
//! holds nothing for the state it is in and the symbol under its head.

pub mod movement;
pub mod tape;
pub mod transition;
pub mod turing;
