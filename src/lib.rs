//! Lifecycle management of domain-validated TLS certificates obtained through
//! the ACME HTTP-01 challenge: proof publication, the versioned certificate
//! store, renewal decisions, the privilege-drop sequence of the challenge
//! daemon and the daemon's responses.
pub mod paths;
pub mod decimal;
pub mod config;
pub mod args;
pub mod renew;
pub mod cert;
pub mod persist;
pub mod store;
pub mod sandbox;
pub mod http_responses;
pub mod daemon;
pub mod check;
pub mod acme;
pub mod chall;
pub mod status;
