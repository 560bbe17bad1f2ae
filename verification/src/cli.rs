//! Command-line options shared by the commands that talk to the server.

use vstd::prelude::*;

verus! {

/// How to reach the speech server.
#[derive(Debug, Clone)]
pub struct ConnectionOpts {
    /// The address of the speech server (`host:port`).
    pub address: String,
}

} // verus!
