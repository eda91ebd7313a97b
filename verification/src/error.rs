use vstd::prelude::*;

verus! {

/// Failure taxonomy of the playback core.
///
/// Navigation on an empty active set, an out-of-range jump and a missing
/// track or season are synchronous, caller-visible failures; the remaining
/// variants classify failures of the collaborators around the core (the
/// resolver, persistence, the media engine) that the daemon logs and
/// survives.
#[derive(Clone, Copy, Debug, PartialEq, Eq, Structural)]
pub enum ApplicationError {
    /// Navigation was requested while `active` tracks are empty.
    EmptyActiveSet,
    /// A jump targeted an index at or past the end of the active tracks.
    IndexOutOfRange,
    /// The requested track identifier is in neither the active scope nor
    /// the full catalog.
    TrackNotFound,
    /// The requested season has no tracks in the catalog.
    SeasonNotFound,
    /// Resolving a track to a playable URL failed after all retries.
    ResolveFailure,
    /// The dead-track-skip budget was exhausted without a playable track.
    MaxRetriesExceeded,
    /// Writing the persisted state document failed.
    PersistenceFailure,
    /// The media engine reported a failure.
    EngineFailure,
}

impl ApplicationError {
    /// A short human-readable description of the failure.
    pub fn describe(&self) -> (r: &'static str)
        ensures
            r@ == match self {
                ApplicationError::EmptyActiveSet => "no tracks in the active play list"@,
                ApplicationError::IndexOutOfRange => "track index out of range"@,
                ApplicationError::TrackNotFound => "track not found in the play list"@,
                ApplicationError::SeasonNotFound => "season not found in the play list"@,
                ApplicationError::ResolveFailure => "failed to resolve a playable URL"@,
                ApplicationError::MaxRetriesExceeded => "max retries reached for play next song"@,
                ApplicationError::PersistenceFailure => "failed to persist the play state"@,
                ApplicationError::EngineFailure => "the playback engine reported an error"@,
            },
    {
        match self {
            ApplicationError::EmptyActiveSet => "no tracks in the active play list",
            ApplicationError::IndexOutOfRange => "track index out of range",
            ApplicationError::TrackNotFound => "track not found in the play list",
            ApplicationError::SeasonNotFound => "season not found in the play list",
            ApplicationError::ResolveFailure => "failed to resolve a playable URL",
            ApplicationError::MaxRetriesExceeded => "max retries reached for play next song",
            ApplicationError::PersistenceFailure => "failed to persist the play state",
            ApplicationError::EngineFailure => "the playback engine reported an error",
        }
    }
}

} // verus!
