//! A frame-synchronous scheduler of deferred state transitions.
//!
//! Each entity ([`Body`]) holds an observable value and a first-in, first-out
//! queue ([`TransitionQueue`]) of pending changes to it. A change is either
//! due at once ([`Transition::Immediate`]) or gated to a frame
//! ([`Transition::Scheduled`]). Once per frame the driver calls
//! [`Body::tick`], which looks at the oldest pending change only and retires
//! it when it is due, so at most one change is applied per frame.
use vstd::prelude::*;

pub mod transition;
pub mod queue;

pub use transition::Transition;
pub use queue::TransitionQueue;
pub mod body;

pub use body::{Body, BodyState};
pub mod laws;
