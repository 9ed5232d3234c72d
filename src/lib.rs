//! Interaction control for an n-body visualisation: event cursors, the
//! mouse and keyboard state machine, picking and follow decisions, and the
//! step/reset lifecycle of the simulation snapshot.
pub mod events;
pub mod picking;
pub mod interaction;
pub mod lifecycle;
