//! Event and filter callbacks: how events are counted and routed to a
//! registered event callback, and the user-defined callbacks' switches.

pub mod event_manager;
pub mod user_defined;
