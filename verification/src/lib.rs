//! A gateway that turns authenticated HTTP publish requests into broker
//! messages. This crate holds the decisions of that gateway: who is admitted,
//! which payloads are accepted, what is handed to the broker client, and how a
//! delivery outcome is answered. The network and the broker client itself are
//! driven by the program around it.

pub mod auth;
pub mod config;
pub mod decode;
pub mod delivery;
pub mod error;
pub mod lifecycle;
pub mod response;
pub mod trace;
