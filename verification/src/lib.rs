//! A minimal edition-minting contract module.
//!
//! One collection of non-fungible "edition" tokens is sold at a fixed price
//! in a fungible payment token. The module holds the pure decision logic of
//! the three host-driven entry points: setup validates its parameters and
//! produces the configuration record together with one sub-contract creation
//! request; the creation callback records the new collection's address; a
//! purchase validates the payment notification and produces one mint request.
//!
//! The blockchain host (storage, message dispatch, serialization) lives
//! outside this crate: each handler here is a function from plain values to
//! plain values, and the surrounding adapter performs the reads, writes and
//! sends.

pub mod contract;
pub mod error;
pub mod msg;
pub mod state;
