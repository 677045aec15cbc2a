//! An instrumented, latency-controllable stand-in for a node's peer-to-peer
//! data port, together with the coin model the transaction pool works on.

pub mod coins;
pub mod blockchain;
pub mod generator;
pub mod counter;
pub mod pressure;
