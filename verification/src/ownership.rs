//! The ownership check: what the fetch of the marker brought back.
//!
//! The marker is fetched once, with a plain `GET` of the address that
//! [`marker_address`](crate::normalize::marker_address) derives.
//! Whoever makes the request reports how it ended as a [`FetchOutcome`]; the
//! status code of the response plays no part, so the body of any response that
//! arrived is the marker's content.

use vstd::prelude::*;

verus! {

/// How the fetch of a marker ended.
#[derive(Debug, PartialEq, Eq)]
pub enum FetchOutcome {
    /// A response arrived and its body was read as text.
    Body(String),
    /// No response arrived; the cause is kept.
    TransportFailed(String),
    /// A response arrived but its body could not be read as text; the cause is kept.
    BodyUnreadable(String),
}

/// Why ownership of a URL could not be shown.
#[derive(Debug, PartialEq, Eq)]
pub enum VerifyError {
    /// The marker could not be fetched.
    FetchError(String),
    /// The marker's body is no text.
    BodyDecodeError(String),
}

/// The mathematical value of a [`FetchOutcome`].
pub ghost enum FetchOutcomeView {
    Body(Seq<char>),
    TransportFailed(Seq<char>),
    BodyUnreadable(Seq<char>),
}

/// The mathematical value of a [`VerifyError`].
pub ghost enum VerifyErrorView {
    FetchError(Seq<char>),
    BodyDecodeError(Seq<char>),
}

impl View for FetchOutcome {
    type V = FetchOutcomeView;

    open spec fn view(&self) -> FetchOutcomeView {
        match self {
            FetchOutcome::Body(b) => FetchOutcomeView::Body(b@),
            FetchOutcome::TransportFailed(c) => FetchOutcomeView::TransportFailed(c@),
            FetchOutcome::BodyUnreadable(c) => FetchOutcomeView::BodyUnreadable(c@),
        }
    }
}

impl View for VerifyError {
    type V = VerifyErrorView;

    open spec fn view(&self) -> VerifyErrorView {
        match self {
            VerifyError::FetchError(c) => VerifyErrorView::FetchError(c@),
            VerifyError::BodyDecodeError(c) => VerifyErrorView::BodyDecodeError(c@),
        }
    }
}

impl VerifyErrorView {
    /// The text shown to the submitter.
    pub open spec fn message(self) -> Seq<char> {
        match self {
            VerifyErrorView::FetchError(c) => "error fetching url: "@ + c,
            VerifyErrorView::BodyDecodeError(c) => "error getting request body: "@ + c,
        }
    }
}

impl VerifyError {
    /// The text shown to the submitter.
    pub fn message(&self) -> (text: String)
        ensures
            text@ == self@.message(),
    {
        match self {
            VerifyError::FetchError(c) => "error fetching url: ".to_owned().concat(c.as_str()),
            VerifyError::BodyDecodeError(c) => "error getting request body: ".to_owned().concat(
                c.as_str(),
            ),
        }
    }
}

/// The marker's content, or the reason there is none.
pub open spec fn checked(outcome: FetchOutcomeView) -> Result<Seq<char>, VerifyErrorView> {
    match outcome {
        FetchOutcomeView::Body(b) => Ok(b),
        FetchOutcomeView::TransportFailed(c) => Err(VerifyErrorView::FetchError(c)),
        FetchOutcomeView::BodyUnreadable(c) => Err(VerifyErrorView::BodyDecodeError(c)),
    }
}

/// The view of a verification result.
pub open spec fn checked_view(r: Result<String, VerifyError>) -> Result<Seq<char>, VerifyErrorView> {
    match r {
        Ok(b) => Ok(b@),
        Err(e) => Err(e@),
    }
}

/// Judges the fetch of a marker: returns the contents of the marker file if a
/// response arrived and its body was text, and otherwise what went wrong. The
/// content is the category that the owner of the URL claims.
pub fn check_url(outcome: FetchOutcome) -> (r: Result<String, VerifyError>)
    ensures
        checked_view(r) == checked(outcome@),
{
    match outcome {
        FetchOutcome::Body(b) => Ok(b),
        FetchOutcome::TransportFailed(c) => Err(VerifyError::FetchError(c)),
        FetchOutcome::BodyUnreadable(c) => Err(VerifyError::BodyDecodeError(c)),
    }
}

} // verus!
