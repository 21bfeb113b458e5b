//! Verified core of a chat analytics service: turning client analytics
//! events into storage rows, tracking client sessions, and the decisions of
//! the request extractors, configuration loading and chat agents.

pub mod agent;
pub mod clock;
pub mod config;
pub mod decimal;
pub mod error;
pub mod events;
pub mod extractors;
pub mod pb;
pub mod session;
