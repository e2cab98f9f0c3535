//! Decision logic of a screen-capture to network-video bridge.
//!
//! The host capture service and the network transport are driven by the
//! surrounding program. This library holds what is decided in between:
//! which applications a content filter leaves out, how the capture region is
//! laid out, the life cycle of a capture session, the table through which a
//! frame callback finds its handler, and the order in which a delivered buffer
//! is locked, sent and released.

pub mod error;
pub mod geometry;
pub mod content;
pub mod filter;
pub mod config;
pub mod delegate;
pub mod sender;
pub mod bridge;
pub mod session;
