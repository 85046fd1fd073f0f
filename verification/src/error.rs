//! The library's error type.

use vstd::prelude::*;

verus! {

/// The ways a reconcile pass can fail without reaching a requeue.
#[derive(Debug, Clone, Copy, PartialEq, Eq, Structural)]
pub enum Error {
    /// More than one Job carries the label of a single ImageSync.
    MultipleJobs,
    /// More than one CronJob carries the label of a single ImageSync.
    MultipleCronJobs,
    /// A validation pattern was refused by the regular-expression engine.
    InvalidPattern,
    /// A Job reports completion but has no completion time.
    MissingCompletionTime,
    /// The ImageSync's name cannot be cut after 50 bytes without splitting
    /// a character.
    NameSplitsCharacter,
    /// A CronJob found in the cluster lacks the volumes or the container
    /// that its comparison with the expected CronJob reads.
    MalformedCronJob,
}

} // verus!
