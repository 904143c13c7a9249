//! The boot-time rule for the persisted configuration blob.
//!
//! Storage itself is a capability edge: the filesystem hands this module
//! the raw contents of the config file, or nothing when the file does not
//! exist. The rule here says what to make of it: a missing file means no
//! configuration, a structurally malformed blob is discarded (the caller
//! removes the file so the anomaly heals itself instead of being retried
//! forever), and a valid blob loads as a whole — never partially.

use vstd::prelude::*;

use crate::codec::{decode_config, spec_decode, valid_blob_len};
use crate::config::PwmConfig;

verus! {

/// What the persisted blob turned out to be.
pub enum LoadOutcome {
    /// No config file exists; boot with defaults.
    Missing,
    /// The blob's length is structurally invalid; the caller must remove
    /// the file and boot with defaults.
    Malformed,
    /// The blob decoded; this is the whole persisted configuration.
    Loaded(PwmConfig),
}

/// Interpret the raw contents of the config file, `None` standing for a
/// file that does not exist. Exactly the structurally valid blobs load,
/// and they load completely.
pub fn interpret_stored(raw: Option<Vec<u8>>) -> (r: LoadOutcome)
    ensures
        r is Missing <==> raw is None,
        r is Malformed ==> (raw matches Some(b) && !valid_blob_len(b@.len() as int)),
        (raw matches Some(b) && !valid_blob_len(b@.len() as int)) ==> r is Malformed,
        r matches LoadOutcome::Loaded(c) ==> (raw matches Some(b) && valid_blob_len(
            b@.len() as int,
        ) && c@ == spec_decode(b@)),
        (raw matches Some(b) && valid_blob_len(b@.len() as int)) ==> r is Loaded,
{
    match raw {
        None => LoadOutcome::Missing,
        Some(blob) => match decode_config(blob.as_slice()) {
            Ok(c) => LoadOutcome::Loaded(c),
            Err(_) => LoadOutcome::Malformed,
        },
    }
}

} // verus!
