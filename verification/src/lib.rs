//! A two-phase, readiness-gated request/response protocol.
//!
//! A service first reports whether it can accept one unit of work, and only
//! then may it be handed a request. The `service` module states that protocol;
//! the other modules hold two services that follow it.

pub mod alternating_service;
pub mod echo_service;
pub mod service;
