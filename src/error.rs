//! The failures that spiders and the engine report.

use vstd::prelude::*;

verus! {

/// A failure of a spider operation or of the engine itself.
#[derive(Debug, Clone)]
pub enum Error {
    /// A broken invariant of the engine or of a spider's own logic.
    Internal(String),
    /// The spider that was asked for does not exist.
    InvalidSpider(String),
    /// A page could not be fetched.
    Transport(String),
    /// A browser-automation session or command failed.
    SessionFailure(String),
    /// A worker task ended abnormally.
    ConcurrencyJoinFailure(String),
    /// A fetched page did not have the expected shape.
    InvalidResponse(String),
}

/// How far a failure reaches.
#[derive(Debug, Clone, Copy, PartialEq, Eq, Structural)]
pub enum Reach {
    /// Caught at the worker: the unit of work yields nothing, the crawl goes on.
    Local,
    /// Reported to the caller before any crawl starts.
    Caller,
    /// Ends the crawl session, which reports failure.
    Fatal,
}

impl Error {
    /// The human-readable text of the failure.
    pub open spec fn text(&self) -> Seq<char> {
        match self {
            Error::Internal(_) => "Internal"@,
            Error::InvalidSpider(s) => "Spider is not valid! : "@ + s@,
            Error::Transport(s) => "Reqwest : "@ + s@,
            Error::SessionFailure(s) => "WebDriver : "@ + s@,
            Error::ConcurrencyJoinFailure(s) => "tokio join error : "@ + s@,
            Error::InvalidResponse(s) => s@ + " : Invalid HTTP response"@,
        }
    }

    /// How far a failure of this kind reaches.
    pub open spec fn reach_of(&self) -> Reach {
        match self {
            Error::Transport(_) | Error::SessionFailure(_) | Error::InvalidResponse(_) => Reach::Local,
            Error::InvalidSpider(_) => Reach::Caller,
            Error::Internal(_) | Error::ConcurrencyJoinFailure(_) => Reach::Fatal,
        }
    }

    /// The human-readable text of the failure.
    pub fn message(&self) -> (r: String)
        ensures
            r@ == self.text(),
    {
        match self {
            Error::Internal(_) => String::from_str("Internal"),
            Error::InvalidSpider(s) => {
                let mut r = String::from_str("Spider is not valid! : ");
                r.append(s.as_str());
                r
            },
            Error::Transport(s) => {
                let mut r = String::from_str("Reqwest : ");
                r.append(s.as_str());
                r
            },
            Error::SessionFailure(s) => {
                let mut r = String::from_str("WebDriver : ");
                r.append(s.as_str());
                r
            },
            Error::ConcurrencyJoinFailure(s) => {
                let mut r = String::from_str("tokio join error : ");
                r.append(s.as_str());
                r
            },
            Error::InvalidResponse(s) => {
                let mut r = s.clone();
                r.append(" : Invalid HTTP response");
                r
            },
        }
    }

    /// How far this failure reaches.
    pub fn reach(&self) -> (r: Reach)
        ensures
            r == self.reach_of(),
    {
        match self {
            Error::Transport(_) | Error::SessionFailure(_) | Error::InvalidResponse(_) => Reach::Local,
            Error::InvalidSpider(_) => Reach::Caller,
            Error::Internal(_) | Error::ConcurrencyJoinFailure(_) => Reach::Fatal,
        }
    }

    /// Whether this failure ends the crawl session.
    pub fn is_fatal(&self) -> (r: bool)
        ensures
            r == (self.reach_of() == Reach::Fatal),
    {
        match self {
            Error::Internal(_) | Error::ConcurrencyJoinFailure(_) => true,
            _ => false,
        }
    }
}

} // verus!
