//! Core logic of a console login manager.
//!
//! The library models one login attempt as a state machine: credential
//! validation through the platform authentication stack, login-accounting
//! record management, terminal-device ownership transfer, and
//! privilege-scoped session launch, with guaranteed teardown on every exit
//! path. Everything effectful (PAM, utmpx, chown, process spawning, the
//! text-mode UI) lives outside the library; the library supplies the
//! decisions, the pure computations, and the byte-level record layout,
//! all with verified contracts.

pub mod accounting;
pub mod auth;
pub mod environment;
pub mod issue;
pub mod lifecycle;
pub mod num_lock;
pub mod selection;
pub mod session;
pub mod settings;
pub mod text;
pub mod user;
