//! The ports through which other nodes reach this one.
use vstd::prelude::*;

pub mod http;

verus! {

/// Errors in binding a port.
#[derive(Debug)]
pub enum PortError {
    /// The endpoint could not be bound; the system's message.
    BindError(String),
    /// Any other port error.
    Unknown,
}

} // verus!
