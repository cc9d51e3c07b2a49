use articles::article::{is_bindable_text, Article};
use articles::statement::{
    can_insert, insert_many, try_insert_many, Param, SQLStatements, Statement,
};
use articles::text::{push_decimal, render_decimal};

const INSERT_ONE: &str =
    "INSERT INTO articles (title, content, published_date)VALUES ($1, $2, $3)";
const SELECT_ONE: &str = "SELECT title, content, published_date FROM articles WHERE id = $1";

fn article(title: &str, content: &str, date: &str) -> Article {
    Article::new(title.to_string(), content.to_string(), date.to_string())
}

fn text(s: &str) -> Param {
    Param::Text(s.to_string())
}

#[test]
fn insert_binds_all_three_fields() {
    let a = article("Launch", "We shipped.", "2024-01-01");
    let s = a.insert();
    assert_eq!(s.sql, INSERT_ONE);
    assert_eq!(s.params, vec![text("Launch"), text("We shipped."), text("2024-01-01")]);
}

#[test]
fn insert_text_has_three_placeholders_and_no_value() {
    let a = article("zebra-title", "zebra-content", "zebra-date");
    let s = a.insert();
    assert_eq!(s.sql.matches('$').count(), 3);
    assert!(!s.sql.contains("zebra"));
}

#[test]
fn insert_keeps_sql_metacharacters_out_of_the_text() {
    let hostile = "a'); DROP TABLE articles;--";
    let a = article(hostile, hostile, "2024-01-01");
    let s = a.insert();
    assert_eq!(s.sql, INSERT_ONE);
    assert_eq!(s.params, vec![text(hostile), text(hostile), text("2024-01-01")]);
}

#[test]
fn insert_text_is_the_same_for_every_article() {
    let a = article("Launch", "We shipped.", "2024-01-01");
    let b = article("", "\u{0}\"$1; --", "not a date");
    assert_eq!(a.insert().sql, b.insert().sql);
}

#[test]
fn insert_passes_an_arbitrary_date_through() {
    let a = article("t", "c", "the day after tomorrow");
    let s = a.insert();
    assert_eq!(s.params[2], text("the day after tomorrow"));
}

#[test]
fn insert_passes_empty_texts_through() {
    let a = article("", "", "");
    let s = a.insert();
    assert_eq!(s.sql, INSERT_ONE);
    assert_eq!(s.params, vec![text(""), text(""), text("")]);
}

#[test]
fn try_insert_gives_the_statement_of_insert() {
    let a = article("Launch", "We shipped.", "2024-01-01");
    assert_eq!(a.try_insert(), Some(a.insert()));
}

#[test]
fn insert_many_of_one_equals_insert() {
    let a = article("Launch", "We shipped.", "2024-01-01");
    assert_eq!(insert_many(&vec![a.clone()]), a.insert());
}

#[test]
fn insert_many_numbers_placeholders_row_by_row() {
    let rows = vec![article("t1", "c1", "d1"), article("t2", "c2", "d2")];
    let s = insert_many(&rows);
    assert_eq!(
        s.sql,
        "INSERT INTO articles (title, content, published_date)VALUES ($1, $2, $3), ($4, $5, $6)"
    );
    assert_eq!(
        s.params,
        vec![text("t1"), text("c1"), text("d1"), text("t2"), text("c2"), text("d2")]
    );
}

#[test]
fn insert_many_writes_placeholder_numbers_in_decimal() {
    let rows = vec![
        article("a", "b", "c"),
        article("d", "e", "f"),
        article("g", "h", "i"),
        article("j", "k", "l"),
    ];
    let s = insert_many(&rows);
    assert_eq!(
        s.sql,
        "INSERT INTO articles (title, content, published_date)VALUES \
         ($1, $2, $3), ($4, $5, $6), ($7, $8, $9), ($10, $11, $12)"
    );
    assert_eq!(s.params.len(), 12);
    assert_eq!(s.params[9], text("j"));
    assert_eq!(s.params[11], text("l"));
}

#[test]
fn try_insert_many_refuses_an_empty_sequence() {
    let rows: Vec<Article> = Vec::new();
    assert!(!can_insert(&rows));
    assert_eq!(try_insert_many(&rows), None);
}

#[test]
fn try_insert_many_accepts_what_can_insert_accepts() {
    let rows = vec![article("t1", "c1", "d1"), article("t2", "c2", "d2")];
    assert!(can_insert(&rows));
    assert_eq!(try_insert_many(&rows), Some(insert_many(&rows)));
}

#[test]
fn short_texts_are_bindable() {
    assert!(is_bindable_text(""));
    assert!(is_bindable_text("héllo, wörld"));
    assert!(article("Launch", "We shipped.", "2024-01-01").is_bindable());
}

#[test]
fn duplicate_equals_the_original() {
    let a = article("Launch", "We shipped.", "2024-01-01");
    assert_eq!(a.duplicate(), a);
}

#[test]
fn select_binds_the_identifier() {
    let s: Statement = Article::select(9999);
    assert_eq!(s.sql, SELECT_ONE);
    assert_eq!(s.params, vec![Param::Id(9999)]);
}

#[test]
fn select_text_is_the_same_for_every_identifier() {
    let zero = Article::select(0);
    let one = Article::select(1);
    let largest = Article::select(usize::MAX);
    assert_eq!(zero.sql, SELECT_ONE);
    assert_eq!(one.sql, SELECT_ONE);
    assert_eq!(largest.sql, SELECT_ONE);
    assert_eq!(largest.params, vec![Param::Id(usize::MAX)]);
}

#[test]
fn select_twice_gives_equal_statements() {
    assert_eq!(Article::select(42), Article::select(42));
}

#[test]
fn decimal_of_small_and_large_numbers() {
    assert_eq!(render_decimal(0), "0");
    assert_eq!(render_decimal(7), "7");
    assert_eq!(render_decimal(10), "10");
    assert_eq!(render_decimal(9999), "9999");
    assert_eq!(render_decimal(1_000_000), "1000000");
    assert_eq!(render_decimal(usize::MAX), usize::MAX.to_string());
}

#[test]
fn push_decimal_appends_to_what_is_there() {
    let mut s = String::from("id=");
    push_decimal(&mut s, 305);
    assert_eq!(s, "id=305");
}
