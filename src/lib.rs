//! Smart-TV discovery and remote-control dispatch logic.
//!
//! The library holds the decisions: how an SSDP reply becomes a device
//! record, how a scan deduplicates and bounds its reads, how abstract keys
//! map onto vendor codes, which frames are sent, and how a dispatch session
//! moves from one step to the next. Sockets, TLS and timers are driven by the
//! caller, which reports each outcome back to the session.
use vstd::prelude::*;

pub mod discovery;
pub mod json;
pub mod keys;
pub mod remote;
pub mod ssdp;
pub mod text;

verus! {

} // verus!
