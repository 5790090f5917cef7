//! Touch input: the touch sample type and its bridge to generic event
//! containers.
pub mod touch;
pub mod generic_event;
pub mod input;
