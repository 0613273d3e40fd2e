//! Safe access to payloads that live inside objects owned by a host engine:
//! load-time negotiation of the host interface, the marshaled form of host
//! strings, and runtime tracking of shared and exclusive access.

pub mod cell;
pub mod count;
pub mod dyn_gd;
pub mod guards;
pub mod storage;
pub mod string;
pub mod text;
pub mod tracker;
pub mod version;
