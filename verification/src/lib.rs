//! Verified configuration and decision logic for a shared-memory queue transport.
pub mod text;
pub mod semaphore;
pub mod layout;
pub mod options;
pub mod config;
