//! The errors of the local REST server.
use vstd::prelude::*;

verus! {

/// Why the REST server could not start.
#[derive(Debug)]
pub enum Error {
    /// Listening on its address failed.
    Io { message: String, cause: String },
}

} // verus!
