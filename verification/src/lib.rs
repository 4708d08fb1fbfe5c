//! Decision logic of a bridge between a peer-to-peer application runtime and
//! an email relay: where the runtime keeps its state, how it is configured,
//! which administrative calls are made in which order, how a registration of
//! relay credentials is judged, and which signals become outgoing mail.
//!
//! The functions here decide and the surrounding program acts: it performs
//! each remote call that a step asks for and hands the reply back. Values are
//! plain throughout, but for the mail message, which is built with `lettre`.

pub mod text;
pub mod storage;
pub mod config;
pub mod credentials;
pub mod relay;
pub mod authorize;
pub mod install;
pub mod register;
pub mod bridge;
