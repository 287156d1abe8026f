//! What comes back: the list envelope, the kinds of failure, and the rule
//! that turns a status and a decoded body into the result of a call.

use vstd::prelude::*;
use crate::query::text_of;

verus! {

/// Response from endpoints that return a list of items.
#[derive(Debug, PartialEq)]
pub struct ListResponse<T> {
    /// The list of items returned by the endpoint, in the order of the
    /// server.
    pub data: Vec<T>,
    /// The optional token to use to retrieve the next page of results.
    pub next_token: Option<String>,
}

impl<T> ListResponse<T> {
    /// The cursor of the next page as the server gave it, for use in a
    /// follow-up query; `None` on the last page.
    pub fn cursor(&self) -> (c: Option<&str>)
        ensures
            match self.next_token {
                Some(token) => text_of(c) == Some(token@),
                None => c is None,
            },
    {
        match &self.next_token {
            Some(token) => Some(token.as_str()),
            None => None,
        }
    }

    /// Whether this is the last page: the server sent no cursor.
    pub fn is_last_page(&self) -> (b: bool)
        ensures
            b == (self.next_token is None),
    {
        self.next_token.is_none()
    }
}

/// Why a call failed.
#[derive(Clone, Debug, PartialEq, Eq)]
pub enum ApiError {
    /// No reply arrived: the name did not resolve, the connection or the
    /// TLS handshake failed, or the transport gave up waiting. Holds the
    /// transport's own description.
    Transport(String),
    /// The server answered with a status outside `200..=299`. Holds that
    /// status.
    Status(u16),
    /// The body of a successful reply does not have the expected shape.
    /// Holds the decoder's own description.
    Decode(String),
}

/// What an [`ApiError`] holds.
pub enum ErrorView {
    Transport(Seq<char>),
    Status(u16),
    Decode(Seq<char>),
}

impl View for ApiError {
    type V = ErrorView;

    open spec fn view(&self) -> ErrorView {
        match self {
            ApiError::Transport(reason) => ErrorView::Transport(reason@),
            ApiError::Status(status) => ErrorView::Status(*status),
            ApiError::Decode(reason) => ErrorView::Decode(reason@),
        }
    }
}

impl ApiError {
    /// The status that the server answered with, where the failure is one
    /// of status.
    pub fn status(&self) -> (s: Option<u16>)
        ensures
            s == match self@ {
                ErrorView::Status(status) => Some(status),
                _ => None,
            },
    {
        match self {
            ApiError::Status(status) => Some(*status),
            _ => None,
        }
    }
}

/// The statuses that count as success: `200..=299`.
pub open spec fn spec_is_success(status: u16) -> bool {
    200 <= status <= 299
}

/// Whether a status counts as success.
#[verifier::when_used_as_spec(spec_is_success)]
pub fn is_success(status: u16) -> (b: bool)
    ensures
        b == spec_is_success(status),
{
    200 <= status && status <= 299
}

/// Judges the status of a reply before its body is read: any status
/// outside `200..=299` is a failure that carries the status.
pub fn check_status(status: u16) -> (r: Result<(), ApiError>)
    ensures
        match r {
            Ok(_) => is_success(status),
            Err(e) => !is_success(status) && e@ == ErrorView::Status(status),
        },
{
    if is_success(status) {
        Ok(())
    } else {
        Err(ApiError::Status(status))
    }
}

/// What decoding gave, with the decoder's description as a text.
pub open spec fn decoded_view<T>(decoded: Result<T, String>) -> Result<T, Seq<char>> {
    match decoded {
        Ok(value) => Ok(value),
        Err(reason) => Err(reason@),
    }
}

/// The result of a call, with the failure as a view.
pub open spec fn result_view<T>(result: Result<T, ApiError>) -> Result<T, ErrorView> {
    match result {
        Ok(value) => Ok(value),
        Err(e) => Err(e@),
    }
}

/// The rule for the result of a call: a status outside `200..=299` fails
/// with that status; on success the decoded value is the result, and a body
/// that did not decode fails with the decoder's description.
pub open spec fn outcome<T>(status: u16, decoded: Result<T, Seq<char>>) -> Result<T, ErrorView> {
    if !is_success(status) {
        Err(ErrorView::Status(status))
    } else {
        match decoded {
            Ok(value) => Ok(value),
            Err(reason) => Err(ErrorView::Decode(reason)),
        }
    }
}

/// The result of a call, given the status of the reply and what decoding
/// its body gave.
///
/// A status outside `200..=299` fails with that status, whatever the body
/// held. On success the decoded value is handed on as it is, and a body
/// that did not decode fails with the decoder's description.
pub fn conclude<T>(status: u16, decoded: Result<T, String>) -> (r: Result<T, ApiError>)
    ensures
        result_view(r) == outcome(status, decoded_view(decoded)),
{
    if !is_success(status) {
        return Err(ApiError::Status(status));
    }
    match decoded {
        Ok(value) => Ok(value),
        Err(reason) => Err(ApiError::Decode(reason)),
    }
}

/// A reply with a status outside `200..=299` fails with exactly that
/// status, whatever its body held: never with a decode failure, never with
/// a value.
pub proof fn lemma_failure_status_is_reported<T>(status: u16, decoded: Result<T, Seq<char>>)
    requires
        !is_success(status),
    ensures
        outcome(status, decoded) == Err::<T, ErrorView>(ErrorView::Status(status)),
{
}

/// On success the result is what decoding the body gave: the decoded value
/// itself, or the decoder's failure. Nothing is put in the place of a body
/// that did not decode.
pub proof fn lemma_success_hands_on_the_decoding<T>(status: u16, decoded: Result<T, Seq<char>>)
    requires
        is_success(status),
    ensures
        decoded matches Ok(value) ==> outcome(status, decoded) == Ok::<T, ErrorView>(value),
        decoded matches Err(reason) ==> outcome(status, decoded) == Err::<T, ErrorView>(
            ErrorView::Decode(reason),
        ),
        outcome(status, decoded) is Ok <==> decoded is Ok,
{
}

} // verus!
