//! A microkernel for an AI-native command-line development environment:
//! a unified error model, an event bus with a durable log, session and
//! permission management, a capability registry with priority routing,
//! and a command bus that ties them together.

pub mod error;
pub mod eventbus;
pub mod ide;
pub mod json;
pub mod kernel;
pub mod text;
pub mod trace_context;
pub mod capability;
pub mod cmd_bus;
pub mod concurrent;
pub mod config;
pub mod platform;
pub mod session;
