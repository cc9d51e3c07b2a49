//! The decisions of the two handlers, on either side of the store.

use crate::article::Article;
use crate::response::{
    create_response, created_reply, fetch_response, internal_error_reply, not_found,
    not_found_reply, reply_view, FailureKind, QueryFailure, Status,
};
use crate::statement::{select_statement, SQLStatements, Statement};
use vstd::prelude::*;

verus! {

/// sqlx's error type. Nothing inside it is visible here.
#[verifier::external_type_specification]
#[verifier::external_body]
pub struct ExSqlxError(sqlx::Error);

/// The largest identifier that the store can hold: its integers are signed
/// and 64 bits wide.
pub const MAX_STORED_ID: u64 = 0x7fff_ffff_ffff_ffff;

/// Turns a failure of sqlx into plain values.
///
/// Tells the variant `sqlx::Error::RowNotFound` from every other variant,
/// and takes the description from the error's `Display` impl (by
/// `to_string`). Trusted, and nothing is claimed of the result: what the
/// error holds cannot be said here.
#[verifier::external_body]
fn failure_of(error: &sqlx::Error) -> (failure: QueryFailure) {
    let kind = match error {
        sqlx::Error::RowNotFound => FailureKind::RowNotFound,
        _ => FailureKind::Other,
    };
    QueryFailure { kind, detail: error.to_string() }
}

/// What the fetch handler does first.
pub enum FetchPlan {
    /// Run this statement and answer from its outcome.
    Query(Statement),
    /// Answer at once.
    Reply((Status, String)),
}

/// Plans a fetch of `article_id`: the lookup with the identifier bound, or,
/// for an identifier beyond what the store can hold, "not found" at once.
/// The text of the lookup never depends on the identifier.
pub fn plan_fetch(article_id: usize) -> (plan: FetchPlan)
    ensures
        article_id <= MAX_STORED_ID ==> (plan matches FetchPlan::Query(s) && s@
            == select_statement(article_id as nat)),
        article_id > MAX_STORED_ID ==> (plan matches FetchPlan::Reply(reply) && reply_view(reply)
            == not_found_reply(article_id as nat)),
{
    if article_id as u64 <= MAX_STORED_ID {
        FetchPlan::Query(Article::select(article_id))
    } else {
        FetchPlan::Reply(not_found(article_id))
    }
}

/// Answers a create request from what sqlx returned for its insert: the
/// confirmation where the insert ran, and for every failure a server
/// error. The description in it is the failure's own, whatever it is.
pub fn create_article(outcome: Result<u64, sqlx::Error>) -> (r: Result<
    (Status, String),
    (Status, String),
>)
    ensures
        outcome is Ok ==> (r matches Ok(reply) && reply_view(reply) == created_reply()),
        outcome is Err ==> (r matches Err(reply) && exists|detail: Seq<char>|
            reply_view(reply) == #[trigger] internal_error_reply(detail)),
{
    match outcome {
        Ok(rows) => create_response(Ok(rows)),
        Err(error) => {
            let failure = failure_of(&error);
            let ghost detail = failure.detail@;
            let r = create_response(Err(failure));
            assert(r matches Err(reply) && reply_view(reply) == internal_error_reply(detail));
            r
        },
    }
}

/// Answers a fetch of `article_id` from what sqlx returned for its lookup:
/// the row where one was found; "not found", naming `article_id`, where
/// sqlx reports that no row matched; a server error for every other
/// failure, with the failure's own description, whatever it is.
pub fn get_article(article_id: usize, outcome: Result<Article, sqlx::Error>) -> (r: Result<
    Article,
    (Status, String),
>)
    ensures
        outcome matches Ok(article) ==> r == Ok::<Article, (Status, String)>(article),
        outcome is Err ==> (r matches Err(reply) && (reply_view(reply) == not_found_reply(
            article_id as nat,
        ) || exists|detail: Seq<char>|
            reply_view(reply) == #[trigger] internal_error_reply(detail))),
{
    match outcome {
        Ok(article) => Ok(article),
        Err(error) => {
            let failure = failure_of(&error);
            let ghost detail = failure.detail@;
            let r = fetch_response(article_id, Err(failure));
            assert(r matches Err(reply) && (reply_view(reply) == not_found_reply(
                article_id as nat,
            ) || reply_view(reply) == internal_error_reply(detail)));
            r
        },
    }
}

} // verus!
