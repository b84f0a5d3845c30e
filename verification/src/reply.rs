//! What the service answers: the outcome of a request as the transport
//! layer has to present it.

use vstd::prelude::*;
use vstd::string::StringExecFns;
use crate::resolve::ResolveError;
use crate::shorten::ShortenError;

verus! {

/// The status of an answer.
#[derive(Debug, Clone, Copy, PartialEq, Eq, Structural)]
pub enum Status {
    Success,
    Found,
    BadRequest,
    NotFound,
    Gone,
    InternalServerError,
    ServiceUnavailable,
}

/// An answer to a request.
#[derive(Debug, PartialEq, Eq)]
pub enum Reply {
    /// The link was stored; this is its short URL.
    ShortUrl(String),
    /// The code resolved; redirect to this destination.
    Redirect(String),
    /// The request failed, with this status and this message.
    Failure(Status, &'static str),
}

impl Status {
    /// The HTTP status code.
    pub open spec fn number(self) -> u16 {
        match self {
            Status::Success => 200,
            Status::Found => 302,
            Status::BadRequest => 400,
            Status::NotFound => 404,
            Status::Gone => 410,
            Status::InternalServerError => 500,
            Status::ServiceUnavailable => 503,
        }
    }

    /// The HTTP status code.
    pub fn code(self) -> (n: u16)
        ensures
            n == self.number(),
    {
        match self {
            Status::Success => 200,
            Status::Found => 302,
            Status::BadRequest => 400,
            Status::NotFound => 404,
            Status::Gone => 410,
            Status::InternalServerError => 500,
            Status::ServiceUnavailable => 503,
        }
    }
}

impl Reply {
    /// The status this answer is sent with.
    pub open spec fn status(self) -> Status {
        match self {
            Reply::ShortUrl(_) => Status::Success,
            Reply::Redirect(_) => Status::Found,
            Reply::Failure(status, _) => status,
        }
    }
}

/// The short URL of `code` under `base_url`.
pub open spec fn short_url_of(base_url: Seq<char>, code: Seq<char>) -> Seq<char> {
    base_url.push('/') + code
}

/// How a failed shorten request is answered: a bad request is the client's
/// fault, the other two are the server's, each with a status of its own.
pub open spec fn shorten_failure(e: ShortenError) -> (Status, Seq<char>) {
    match e {
        ShortenError::InvalidRequest => (Status::BadRequest, "Invalid request"@),
        ShortenError::GenerationExhausted => (
            Status::ServiceUnavailable,
            "No free short code found"@,
        ),
        ShortenError::StorageFailure => (Status::InternalServerError, "Error storing URL"@),
    }
}

/// How a failed resolution is answered: an expired link is gone, an unknown
/// code is not found, and a table that cannot be read is the server's fault.
pub open spec fn resolve_failure(e: ResolveError) -> (Status, Seq<char>) {
    match e {
        ResolveError::NotFound => (Status::NotFound, "URL not found"@),
        ResolveError::Expired => (Status::Gone, "This short URL has expired!"@),
        ResolveError::StorageFailure => (Status::InternalServerError, "Error reading URL"@),
    }
}

/// Puts `code` behind `base_url`, with a slash between them.
pub fn short_url(base_url: &str, code: &str) -> (url: String)
    ensures
        url@ == short_url_of(base_url@, code@),
{
    let mut url = base_url.to_owned();
    url.push('/');
    url.append(code);
    url
}

/// The answer to a shorten request that ended with `outcome`.
pub fn shorten_reply(base_url: &str, outcome: Result<String, ShortenError>) -> (reply: Reply)
    ensures
        match outcome {
            Ok(code) => reply matches Reply::ShortUrl(url) && url@ == short_url_of(
                base_url@,
                code@,
            ),
            Err(e) => reply matches Reply::Failure(status, message) && (status, message@)
                == shorten_failure(e),
        },
{
    match outcome {
        Ok(code) => Reply::ShortUrl(short_url(base_url, code.as_str())),
        Err(ShortenError::InvalidRequest) => Reply::Failure(Status::BadRequest, "Invalid request"),
        Err(ShortenError::GenerationExhausted) => Reply::Failure(
            Status::ServiceUnavailable,
            "No free short code found",
        ),
        Err(ShortenError::StorageFailure) => Reply::Failure(
            Status::InternalServerError,
            "Error storing URL",
        ),
    }
}

/// The answer to a resolve request that ended with `outcome`.
pub fn resolve_reply(outcome: Result<String, ResolveError>) -> (reply: Reply)
    ensures
        match outcome {
            Ok(destination) => reply == Reply::Redirect(destination),
            Err(e) => reply matches Reply::Failure(status, message) && (status, message@)
                == resolve_failure(e),
        },
{
    match outcome {
        Ok(destination) => Reply::Redirect(destination),
        Err(ResolveError::NotFound) => Reply::Failure(Status::NotFound, "URL not found"),
        Err(ResolveError::Expired) => Reply::Failure(Status::Gone, "This short URL has expired!"),
        Err(ResolveError::StorageFailure) => Reply::Failure(
            Status::InternalServerError,
            "Error reading URL",
        ),
    }
}

/// Every outcome of a request has a status code of its own: a caller can
/// tell success from failure and each failure from every other, an expired
/// link from an unknown code in particular.
pub proof fn lemma_outcomes_are_told_apart(
    shorten_a: ShortenError,
    shorten_b: ShortenError,
    resolve_a: ResolveError,
    resolve_b: ResolveError,
)
    ensures
        shorten_a != shorten_b ==> shorten_failure(shorten_a).0.number() != shorten_failure(
            shorten_b,
        ).0.number(),
        resolve_a != resolve_b ==> resolve_failure(resolve_a).0.number() != resolve_failure(
            resolve_b,
        ).0.number(),
        shorten_failure(shorten_a).0.number() != Status::Success.number(),
        resolve_failure(resolve_a).0.number() != Status::Found.number(),
        resolve_failure(ResolveError::Expired).0 == Status::Gone,
        resolve_failure(ResolveError::NotFound).0 == Status::NotFound,
{
}

} // verus!
