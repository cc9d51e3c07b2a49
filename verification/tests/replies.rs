use articles::article::Article;
use articles::response::{
    create_response, fetch_response, internal_server_error, not_found, FailureKind, QueryFailure,
    Status,
};

fn article(title: &str, content: &str, date: &str) -> Article {
    Article::new(title.to_string(), content.to_string(), date.to_string())
}

fn failure(kind: FailureKind, detail: &str) -> QueryFailure {
    QueryFailure { kind, detail: detail.to_string() }
}

#[test]
fn status_codes() {
    assert_eq!(Status::Success.code(), 200);
    assert_eq!(Status::NotFound.code(), 404);
    assert_eq!(Status::InternalServerError.code(), 500);
}

#[test]
fn not_found_names_the_identifier() {
    assert_eq!(not_found(9999), (Status::NotFound, "Article with id 9999 not found".to_string()));
    assert_eq!(not_found(0), (Status::NotFound, "Article with id 0 not found".to_string()));
}

#[test]
fn not_found_for_the_largest_identifier() {
    let (status, body) = not_found(usize::MAX);
    assert_eq!(status, Status::NotFound);
    assert_eq!(body, format!("Article with id {} not found", usize::MAX));
}

#[test]
fn internal_server_error_carries_the_detail() {
    assert_eq!(
        internal_server_error("connection refused"),
        (Status::InternalServerError, "Error creating article: connection refused".to_string())
    );
    assert_eq!(
        internal_server_error(""),
        (Status::InternalServerError, "Error creating article: ".to_string())
    );
}

#[test]
fn create_response_confirms_and_drops_the_row_count() {
    let expected = Ok((Status::Success, "Article created successfully".to_string()));
    assert_eq!(create_response(Ok(1)), expected);
    assert_eq!(create_response(Ok(0)), expected);
    assert_eq!(create_response(Ok(u64::MAX)), expected);
}

#[test]
fn create_response_maps_every_failure_to_a_server_error() {
    assert_eq!(
        create_response(Err(failure(FailureKind::Other, "null value in column \"title\""))),
        Err((
            Status::InternalServerError,
            "Error creating article: null value in column \"title\"".to_string()
        ))
    );
    assert_eq!(
        create_response(Err(failure(FailureKind::RowNotFound, "no rows"))),
        Err((Status::InternalServerError, "Error creating article: no rows".to_string()))
    );
}

#[test]
fn fetch_response_returns_the_row_found() {
    let a = article("Launch", "We shipped.", "2024-01-01");
    assert_eq!(fetch_response(1, Ok(a.clone())), Ok(a));
}

#[test]
fn fetch_response_for_no_row_names_the_identifier_not_the_failure() {
    let r = fetch_response(9999, Err(failure(FailureKind::RowNotFound, "no rows returned")));
    assert_eq!(r, Err((Status::NotFound, "Article with id 9999 not found".to_string())));
}

#[test]
fn fetch_response_tells_other_failures_from_no_row() {
    let r = fetch_response(9999, Err(failure(FailureKind::Other, "pool timed out")));
    assert_eq!(
        r,
        Err((Status::InternalServerError, "Error creating article: pool timed out".to_string()))
    );
}

#[test]
fn fetch_response_is_the_same_for_the_same_outcome() {
    let a = article("Launch", "We shipped.", "2024-01-01");
    assert_eq!(fetch_response(1, Ok(a.clone())), fetch_response(1, Ok(a)));
    let f = failure(FailureKind::RowNotFound, "no rows");
    assert_eq!(fetch_response(7, Err(f.clone())), fetch_response(7, Err(f)));
}
