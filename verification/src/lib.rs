//! Core of a backend adapter that sits between a Lightning node and a
//! full-node blockchain backend.  The node issues a small fixed set of
//! requests (chain info, fee estimates, block fetch by height, UTXO lookup,
//! raw-transaction broadcast); each is translated into backend RPC calls and
//! the backend's answer or error is normalized into the stable shape the node
//! expects.  This crate holds the decision logic of that translation --
//! request validation, error-code taxonomy, fee policy arithmetic, and the
//! connection-bootstrap state machine -- over plain values; the transport
//! that carries JSON requests and the live RPC connection are collaborators
//! that drive these functions from outside.

pub mod backend;
pub mod block;
pub mod bootstrap;
pub mod broadcast;
pub mod chain;
pub mod config;
pub mod fees;
pub mod handle;
pub mod utxo;
