//! What happens to USB devices, their interfaces and their endpoints on macOS.
//!
//! The library keeps the state of open devices and decides; it makes no call into the system. An
//! operation that takes one call is given what the call returned. An operation that takes several
//! asks for one after the other (see `step`), and is told what each returned.
pub mod bitset;
pub mod capture;
pub mod claim;
pub mod connection;
pub mod control;
pub mod descriptors;
pub mod detach;
pub mod device;
pub mod endpoint;
pub mod error;
pub mod interface;
pub mod open;
pub mod ret;
pub mod step;
pub mod transfer;
