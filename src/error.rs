use vstd::prelude::*;
use crate::message::MissingField;

verus! {

/// Why a challenge could not be taken or answered.
#[derive(Clone, Copy, Debug, PartialEq, Eq, Structural)]
pub enum ChallengeFault {
    /// The message handed in is a request, not a response.
    NotAResponse,
    /// The response carries no authentication challenge.
    NoChallenge,
    MissingRealm,
    MissingNonce,
    /// A challenge is stored, but no username or no password is set.
    NoCredentials,
}

/// The errors of the client operations.
#[derive(Clone, Copy, Debug, PartialEq, Eq, Structural)]
pub enum Error {
    /// The message builder rejected the assembled fields.
    Build(MissingField),
    Challenge(ChallengeFault),
    /// A value does not fit its header field: the sequence space is used up.
    Serialization,
}

} // verus!
