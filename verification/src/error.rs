//! What can go wrong at the boundaries of the plugin core.

use vstd::prelude::*;

verus! {

/// The failures that the plugin core reports. None of them is fatal to the
/// host: each is handed to the caller, who carries on.
#[derive(Clone, Copy, Debug, PartialEq, Eq, Structural)]
pub enum Error {
    /// The state of an instance could not be encoded.
    SerializationError,
    /// Stored bytes are of an unknown version, or are no encoding of an instance.
    DeserializationError,
    /// A script could not be loaded during setup or resetup.
    ScriptLoadError,
    /// A script failed on a frame inside a worker.
    ScriptExecutionError,
}

} // verus!
