//! Replies: what a handler answers for each outcome of the store.

use crate::article::{Article, ArticleView};
use crate::text::{decimal, push_decimal};
use vstd::prelude::*;
use vstd::string::*;

verus! {

/// The outcome class of a handled request.
#[derive(Clone, Copy, Debug, PartialEq, Eq, Structural)]
pub enum Status {
    Success,
    NotFound,
    InternalServerError,
}

impl Status {
    /// The numeric HTTP status code.
    pub open spec fn code_spec(self) -> u16 {
        match self {
            Status::Success => 200u16,
            Status::NotFound => 404u16,
            Status::InternalServerError => 500u16,
        }
    }

    /// Returns the numeric HTTP status code.
    pub fn code(&self) -> (c: u16)
        ensures
            c == self.code_spec(),
    {
        match self {
            Status::Success => 200u16,
            Status::NotFound => 404u16,
            Status::InternalServerError => 500u16,
        }
    }
}

/// Why the store did not answer a statement with what was asked for.
#[derive(Clone, Copy, Debug, PartialEq, Eq, Structural)]
pub enum FailureKind {
    /// The statement ran and matched no row.
    RowNotFound,
    /// Anything else: the connection, the pool, a constraint, a decoding.
    Other,
}

/// A failure of the store, as plain values: its kind and its description.
#[derive(Clone, Debug, PartialEq, Eq)]
pub struct QueryFailure {
    pub kind: FailureKind,
    pub detail: String,
}

/// What a `QueryFailure` is.
pub struct QueryFailureView {
    pub kind: FailureKind,
    pub detail: Seq<char>,
}

impl View for QueryFailure {
    type V = QueryFailureView;

    open spec fn view(&self) -> QueryFailureView {
        QueryFailureView { kind: self.kind, detail: self.detail@ }
    }
}

/// A status and a plain-text body, as mathematical values.
pub open spec fn reply_view(reply: (Status, String)) -> (Status, Seq<char>) {
    (reply.0, reply.1@)
}

/// The reply for an identifier that names no article: the message holds the
/// identifier that was asked for, as a decimal numeral.
pub open spec fn not_found_reply(article_id: nat) -> (Status, Seq<char>) {
    (Status::NotFound, "Article with id "@ + decimal(article_id) + " not found"@)
}

/// The reply for a failure of the store, with the failure's description.
pub open spec fn internal_error_reply(detail: Seq<char>) -> (Status, Seq<char>) {
    (Status::InternalServerError, "Error creating article: "@ + detail)
}

/// The reply for an article that was stored.
pub open spec fn created_reply() -> (Status, Seq<char>) {
    (Status::Success, "Article created successfully"@)
}

/// Maps "no such article" to a reply that names the requested identifier.
pub fn not_found(article_id: usize) -> (reply: (Status, String))
    ensures
        reply_view(reply) == not_found_reply(article_id as nat),
{
    let mut body = String::from_str("Article with id ");
    push_decimal(&mut body, article_id);
    body.append(" not found");
    (Status::NotFound, body)
}

/// Maps a failure of the store to a server-error reply that carries the
/// failure's description.
pub fn internal_server_error(detail: &str) -> (reply: (Status, String))
    ensures
        reply_view(reply) == internal_error_reply(detail@),
{
    let mut body = String::from_str("Error creating article: ");
    body.append(detail);
    (Status::InternalServerError, body)
}

/// What the create handler answers, for each outcome of running the
/// insert.
pub open spec fn create_reply(outcome: Result<u64, QueryFailureView>) -> Result<
    (Status, Seq<char>),
    (Status, Seq<char>),
> {
    match outcome {
        Ok(_) => Ok(created_reply()),
        Err(failure) => Err(internal_error_reply(failure.detail)),
    }
}

/// What the fetch handler answers, for each outcome of running the lookup
/// for `article_id`.
pub open spec fn fetch_reply(article_id: nat, outcome: Result<ArticleView, QueryFailureView>) -> Result<
    ArticleView,
    (Status, Seq<char>),
> {
    match outcome {
        Ok(article) => Ok(article),
        Err(failure) => match failure.kind {
            FailureKind::RowNotFound => Err(not_found_reply(article_id)),
            FailureKind::Other => Err(internal_error_reply(failure.detail)),
        },
    }
}

/// The mathematical value of a create handler's answer.
pub open spec fn create_result_view(r: Result<(Status, String), (Status, String)>) -> Result<
    (Status, Seq<char>),
    (Status, Seq<char>),
> {
    match r {
        Ok(reply) => Ok(reply_view(reply)),
        Err(reply) => Err(reply_view(reply)),
    }
}

/// The mathematical value of a fetch handler's answer.
pub open spec fn fetch_result_view(r: Result<Article, (Status, String)>) -> Result<
    ArticleView,
    (Status, Seq<char>),
> {
    match r {
        Ok(article) => Ok(article@),
        Err(reply) => Err(reply_view(reply)),
    }
}

/// The mathematical value of the outcome of an insert.
pub open spec fn insert_outcome_view(outcome: Result<u64, QueryFailure>) -> Result<
    u64,
    QueryFailureView,
> {
    match outcome {
        Ok(rows) => Ok(rows),
        Err(failure) => Err(failure@),
    }
}

/// The mathematical value of the outcome of a lookup.
pub open spec fn lookup_outcome_view(outcome: Result<Article, QueryFailure>) -> Result<
    ArticleView,
    QueryFailureView,
> {
    match outcome {
        Ok(article) => Ok(article@),
        Err(failure) => Err(failure@),
    }
}

/// Answers a create request from the outcome of running its insert: the
/// row count is dropped, every failure is a server error.
pub fn create_response(outcome: Result<u64, QueryFailure>) -> (r: Result<
    (Status, String),
    (Status, String),
>)
    ensures
        create_result_view(r) == create_reply(insert_outcome_view(outcome)),
{
    match outcome {
        Ok(_) => {
            let body = String::from_str("Article created successfully");
            Ok((Status::Success, body))
        },
        Err(failure) => Err(internal_server_error(failure.detail.as_str())),
    }
}

/// Answers a fetch request for `article_id` from the outcome of running
/// its lookup: the row found, "not found" where no row matched, a server
/// error for every other failure.
pub fn fetch_response(article_id: usize, outcome: Result<Article, QueryFailure>) -> (r: Result<
    Article,
    (Status, String),
>)
    ensures
        fetch_result_view(r) == fetch_reply(article_id as nat, lookup_outcome_view(outcome)),
{
    match outcome {
        Ok(article) => Ok(article),
        Err(failure) => match failure.kind {
            FailureKind::RowNotFound => Err(not_found(article_id)),
            FailureKind::Other => Err(internal_server_error(failure.detail.as_str())),
        },
    }
}

} // verus!
