//! Reasons a plan can be rejected, and their mathematical view.

use vstd::prelude::*;

verus! {

/// All reasons a plan can be rejected during policy validation.
#[derive(Debug, PartialEq, Eq)]
pub enum PolicyError {
    /// A command or its arguments contain `sudo`.
    SudoDetected(String),
    /// A command is a known network utility.
    NetworkOperation(String),
    /// A filesystem path escapes the designated working directory.
    PathEscape(String),
}

/// The view of a `PolicyError`: its kind and the text it carries.
pub enum Rejection {
    Sudo(Seq<char>),
    Network(Seq<char>),
    Escape(Seq<char>),
}

impl View for PolicyError {
    type V = Rejection;

    open spec fn view(&self) -> Rejection {
        match self {
            PolicyError::SudoDetected(s) => Rejection::Sudo(s@),
            PolicyError::NetworkOperation(s) => Rejection::Network(s@),
            PolicyError::PathEscape(s) => Rejection::Escape(s@),
        }
    }
}

/// The rejection that a rule check returned, if any.
pub open spec fn outcome(r: Result<(), PolicyError>) -> Option<Rejection> {
    match r {
        Ok(_) => None,
        Err(e) => Some(e@),
    }
}

} // verus!
