//! The two ways in which a lookup fails.

use vstd::prelude::*;

verus! {

/// Why a lookup failed. Each kind carries a message that describes the failure.
#[derive(Debug, PartialEq, Eq)]
pub enum ElevationError {
    /// A request did not bring back a reply.
    Http(String),
    /// A reply was not JSON, or a part of it was missing or of another type.
    Json(String),
}

/// An `ElevationError` with its message as a sequence of characters.
pub enum ElevationErrorView {
    Http(Seq<char>),
    Json(Seq<char>),
}

impl View for ElevationError {
    type V = ElevationErrorView;

    open spec fn view(&self) -> ElevationErrorView {
        match self {
            ElevationError::Http(message) => ElevationErrorView::Http(message@),
            ElevationError::Json(message) => ElevationErrorView::Json(message@),
        }
    }
}

impl ElevationErrorView {
    /// The failure in words: the kind, then the message.
    pub open spec fn text(self) -> Seq<char> {
        match self {
            ElevationErrorView::Http(message) => "http error "@ + message,
            ElevationErrorView::Json(message) => "json error "@ + message,
        }
    }
}

impl ElevationError {
    /// The failure in words, `http error ` or `json error ` followed by the message.
    pub fn to_string(&self) -> (text: String)
        ensures
            text@ == self@.text(),
    {
        match self {
            ElevationError::Http(message) => String::from_str("http error ").concat(message.as_str()),
            ElevationError::Json(message) => String::from_str("json error ").concat(message.as_str()),
        }
    }
}

} // verus!
