//! Core logic of a terminal dashboard for host service-manager units:
//! the record model, the view state machine that reduces input events into
//! an always-valid view state, and the layout / hit-test arithmetic.
//!
//! Everything that talks to the outside world (the unit and log data
//! sources, the terminal) lives outside this crate and hands plain values
//! in and out.

pub mod input;
pub mod layout;
pub mod record;
pub mod state;
pub mod strutil;
