//! The decisions of a core-lightning plugin that lets a gateway intercept HTLCs, and the
//! database records of the federation server behind it.
pub mod amount;
pub mod calls;
pub mod db;
pub mod deadline;
pub mod error;
pub mod htlc;
pub mod interceptor;
pub mod laws;
pub mod messages;
pub mod node;
pub mod route_hints;
pub mod scid;
pub mod service;
pub mod text;
