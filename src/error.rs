//! The errors of this library.

use vstd::prelude::*;

verus! {

/// Everything that can go wrong.
///
/// `Config` is raised at construction and is fatal. The other three complete
/// an operation as failed; they are reported and never stop the frame loop.
#[derive(Debug)]
pub enum BevyPNError {
    /// A configuration value was rejected.
    Config { message: String },
    /// The messaging backend or its transport failed.
    PubNub { message: String },
    /// A response that should have had content had none.
    EmptyBody { on: String },
    /// A response body could not be decoded.
    Deserialize { message: String },
}

} // verus!
