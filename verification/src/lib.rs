//! A minimal installer wizard core: a linear phase state machine driving a
//! single file-placement operation, with optional caller-supplied hooks that
//! run once around the install step.
//!
//! The wizard's decisions (phase transitions, the install operation, log
//! text, button labels) are verified here against an in-memory filesystem
//! model; a host UI loop renders them and performs the real filesystem work,
//! handing the outcomes back.

pub mod fsmodel;
pub mod phase;
pub mod wizard;
