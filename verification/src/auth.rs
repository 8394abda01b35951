//! The two guards at the door: a shared secret on the service routes, a
//! signed envelope on the command routes. Nothing runs before its guard has
//! let the request in.

use crate::command::{CommandInvocation, CommandInvocationView, CommandResult, CommandResultView};
use crate::text::{join, owned, same};
use vstd::prelude::*;
use vstd::string::*;

verus! {

/// Why a service request was not let in.
#[derive(Clone, Copy, Debug, PartialEq, Eq, Structural)]
pub enum AuthFailure {
    /// The request carries no key, or one that is no text.
    MissingKey,
    /// The request carries a key other than the secret.
    InvalidKey,
}

/// The status of every refusal by the guard: unauthorized.
pub const UNAUTHORIZED: u16 = 401;

/// The guard's finding on a request that carries `header` as its key:
/// nothing where the key is the secret, else the failure.
pub open spec fn key_failure(header: Option<Seq<char>>, secret: Seq<char>) -> Option<AuthFailure> {
    match header {
        None => Some(AuthFailure::MissingKey),
        Some(key) => if key == secret {
            None
        } else {
            Some(AuthFailure::InvalidKey)
        },
    }
}

/// The view of an optional borrowed text.
pub open spec fn header_view(header: Option<&str>) -> Option<Seq<char>> {
    match header {
        Some(key) => Some(key@),
        None => None,
    }
}

impl AuthFailure {
    /// The words of the refusal.
    pub open spec fn words(self) -> Seq<char> {
        match self {
            AuthFailure::MissingKey => "Missing API key"@,
            AuthFailure::InvalidKey => "Invalid API key"@,
        }
    }

    /// The words of the refusal.
    pub fn message(self) -> (r: &'static str)
        ensures
            r@ == self.words(),
    {
        match self {
            AuthFailure::MissingKey => "Missing API key",
            AuthFailure::InvalidKey => "Invalid API key",
        }
    }
}

/// Checks the key that a service request carries against the secret.
pub fn check_api_key(header: Option<&str>, secret: &str) -> (r: Result<(), AuthFailure>)
    ensures
        r is Ok <==> key_failure(header_view(header), secret@) is None,
        r matches Err(failure) ==> key_failure(header_view(header), secret@) == Some(failure),
{
    match header {
        None => Err(AuthFailure::MissingKey),
        Some(key) => {
            if same(key, secret) {
                Ok(())
            } else {
                Err(AuthFailure::InvalidKey)
            }
        },
    }
}

/// The header that should carry the signed envelope of a command.
#[derive(Debug, PartialEq, Eq)]
pub enum EnvelopeHeader {
    Missing,
    /// The header is there and its value is no text.
    Unreadable,
    Present(String),
}

/// What the verifier found of an envelope, given the key of the platform and
/// the time.
#[derive(Debug, PartialEq, Eq)]
pub enum Verdict {
    /// The envelope is genuine and in date, and this is the invocation in it.
    Valid(CommandInvocation),
    /// The envelope is not genuine; the text says why.
    Invalid(String),
    Expired,
}

/// Sent where a command comes without its envelope.
pub const ENVELOPE_MISSING: &'static str = "Missing JWT header";

/// Sent where the envelope of a command is no text.
pub const ENVELOPE_UNREADABLE: &'static str = "Invalid JWT header value";

/// What opens the report of an envelope that is not genuine.
pub const ENVELOPE_INVALID: &'static str = "Access token invalid: ";

/// Sent where the envelope of a command is out of date.
pub const ENVELOPE_EXPIRED: &'static str = "Access token expired";

/// The envelope that a header carries, or the refusal.
pub open spec fn envelope_of(header: EnvelopeHeader) -> Result<Seq<char>, CommandResultView> {
    match header {
        EnvelopeHeader::Missing => Err(CommandResultView::BadRequest(ENVELOPE_MISSING@)),
        EnvelopeHeader::Unreadable => Err(CommandResultView::BadRequest(ENVELOPE_UNREADABLE@)),
        EnvelopeHeader::Present(envelope) => Ok(envelope@),
    }
}

/// The invocation that a verdict lets in, or the refusal.
pub open spec fn admitted(verdict: Verdict) -> Result<CommandInvocationView, CommandResultView> {
    match verdict {
        Verdict::Valid(invocation) => Ok(invocation@),
        Verdict::Invalid(reason) => Err(CommandResultView::BadRequest(ENVELOPE_INVALID@ + reason@)),
        Verdict::Expired => Err(CommandResultView::BadRequest(ENVELOPE_EXPIRED@)),
    }
}

/// The view of an envelope or of the refusal.
pub open spec fn envelope_view(r: Result<String, CommandResult>) -> Result<
    Seq<char>,
    CommandResultView,
> {
    match r {
        Ok(envelope) => Ok(envelope@),
        Err(refusal) => Err(refusal@),
    }
}

/// The view of an invocation or of the refusal.
pub open spec fn admission_view(r: Result<CommandInvocation, CommandResult>) -> Result<
    CommandInvocationView,
    CommandResultView,
> {
    match r {
        Ok(invocation) => Ok(invocation@),
        Err(refusal) => Err(refusal@),
    }
}

/// Takes the envelope out of its header; a command without one is a bad
/// request.
pub fn read_envelope(header: EnvelopeHeader) -> (r: Result<String, CommandResult>)
    ensures
        envelope_view(r) == envelope_of(header),
{
    match header {
        EnvelopeHeader::Missing => Err(CommandResult::BadRequest(owned(ENVELOPE_MISSING))),
        EnvelopeHeader::Unreadable => Err(CommandResult::BadRequest(owned(ENVELOPE_UNREADABLE))),
        EnvelopeHeader::Present(envelope) => Ok(envelope),
    }
}

/// Lets in the invocation of a genuine envelope that is in date; any other
/// is a bad request.
pub fn let_in(verdict: Verdict) -> (r: Result<CommandInvocation, CommandResult>)
    ensures
        admission_view(r) == admitted(verdict),
{
    match verdict {
        Verdict::Valid(invocation) => Ok(invocation),
        Verdict::Invalid(reason) => Err(
            CommandResult::BadRequest(join(ENVELOPE_INVALID, reason.as_str())),
        ),
        Verdict::Expired => Err(CommandResult::BadRequest(owned(ENVELOPE_EXPIRED))),
    }
}

} // verus!
