use vstd::prelude::*;

verus! {

/// Crate level error enum
#[derive(Debug)]
pub enum TrackError {
    /// Occurs when an event cannot be serialized
    SerdeJson(serde_json::Error),
    /// The payload serialized to neither a JSON object nor `null`, so it has
    /// no fields to flatten beside the metadata
    PayloadNotObject,
    /// No remote address was given
    NoRemoteAddr,
}

impl TrackError {
    /// A short description of the error.
    pub fn message(&self) -> (r: &'static str)
        ensures
            r@ == match *self {
                TrackError::SerdeJson(_) => "the event could not be serialized"@,
                TrackError::PayloadNotObject => "the payload is not a JSON object"@,
                TrackError::NoRemoteAddr => "no remote address specified"@,
            },
    {
        match self {
            TrackError::SerdeJson(_) => "the event could not be serialized",
            TrackError::PayloadNotObject => "the payload is not a JSON object",
            TrackError::NoRemoteAddr => "no remote address specified",
        }
    }
}

} // verus!
