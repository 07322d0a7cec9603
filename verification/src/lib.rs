//! A simulator for single-tape Turing machines.
//!
//! A machine couples a state, a tape that is unbounded in both directions and
//! a table of transitions. Every value is immutable: writing to a tape, moving
//! its head, inserting a transition and stepping a machine each return a new
//! value and leave the old one as it was, so that every configuration of a run
//! can be kept and inspected.

pub mod tm;
