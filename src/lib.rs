//! Resolves the head commit of a branch on a repository hosting service.
//!
//! The library holds the decisions: how an `owner/repo` reference is read,
//! what is taken from the service's JSON answer, and which outcome each
//! answer leads to. Talking to the network and to the file system is left
//! to the program around it.
pub mod json;
pub mod reference;
pub mod resolve;
