//! Statements: SQL text with numbered placeholders, and the values bound to
//! them out of band.

use crate::article::{Article, ArticleView};
use crate::text::decimal;
use sqlx::{Postgres, QueryBuilder};
use vstd::prelude::*;
use vstd::string::*;

verus! {

/// A value bound to a placeholder.
#[derive(Clone, Debug, PartialEq, Eq)]
pub enum Param {
    Text(String),
    Id(usize),
}

/// What a `Param` is.
pub enum ParamView {
    Text(Seq<char>),
    Id(nat),
}

impl View for Param {
    type V = ParamView;

    open spec fn view(&self) -> ParamView {
        match self {
            Param::Text(s) => ParamView::Text(s@),
            Param::Id(n) => ParamView::Id(*n as nat),
        }
    }
}

/// SQL text together with the values for its placeholders, in placeholder
/// order: `params[i]` belongs to `$i+1`.
#[derive(Clone, Debug, PartialEq, Eq)]
pub struct Statement {
    pub sql: String,
    pub params: Vec<Param>,
}

/// What a `Statement` is.
pub struct StatementView {
    pub sql: Seq<char>,
    pub params: Seq<ParamView>,
}

impl View for Statement {
    type V = StatementView;

    open spec fn view(&self) -> StatementView {
        StatementView { sql: self.sql@, params: self.params@.map_values(|p: Param| p@) }
    }
}

/// The placeholder of the `n`-th bound value: a dollar sign and the decimal
/// numeral of `n`.
pub open spec fn placeholder(n: nat) -> Seq<char> {
    seq!['$'] + decimal(n)
}

/// `count` placeholders numbered from `first` on, separated by a comma and
/// a space.
pub open spec fn placeholder_list(first: nat, count: nat) -> Seq<char>
    decreases count,
{
    if count == 0 {
        Seq::empty()
    } else if count == 1 {
        placeholder(first)
    } else {
        placeholder_list(first, (count - 1) as nat) + seq![',', ' '] + placeholder(
            (first + count - 1) as nat,
        )
    }
}

/// One row of a `VALUES` clause: `width` placeholders numbered from `first`
/// on, in parentheses.
pub open spec fn tuple_text(first: nat, width: nat) -> Seq<char> {
    seq!['('] + placeholder_list(first, width) + seq![')']
}

/// `rows` rows of `width` placeholders each, numbered from 1 on without a
/// gap, separated by a comma and a space.
pub open spec fn tuple_list(rows: nat, width: nat) -> Seq<char>
    decreases rows,
{
    if rows == 0 {
        Seq::empty()
    } else if rows == 1 {
        tuple_text(1, width)
    } else {
        tuple_list((rows - 1) as nat, width) + seq![',', ' '] + tuple_text(
            ((rows - 1) * width + 1) as nat,
            width,
        )
    }
}

/// A `VALUES` clause of `rows` rows of `width` placeholders each.
pub open spec fn values_clause(rows: nat, width: nat) -> Seq<char> {
    seq!['V', 'A', 'L', 'U', 'E', 'S', ' '] + tuple_list(rows, width)
}

/// Builds `head` followed by a `VALUES` clause with one row of three
/// placeholders for each article.
///
/// Calls sqlx's `QueryBuilder::<Postgres>::new`, `push_values` (with
/// `Separated::push_bind` for the three fields of each row) and `into_sql`.
/// Trusted: `new` starts the text with `head`; `push_values` appends
/// `VALUES `, then for each row an opening parenthesis, what the row's
/// binds write, and a closing parenthesis, rows separated by `, `; each
/// bind writes `$` and the running count of bound values, binds of one row
/// separated by `, `; `into_sql` hands the text out. A bind panics on a
/// value longer than the wire protocol can carry, and `push_values` on an
/// empty sequence in a debug build: `requires` leaves both out.
#[verifier::external_body]
fn values_sql(head: &str, rows: &Vec<Article>) -> (sql: String)
    requires
        rows@.len() > 0,
        forall|i: int| 0 <= i < rows@.len() ==> (#[trigger] rows@[i])@.bindable(),
    ensures
        sql@ == head@ + values_clause(rows@.len(), 3),
{
    let mut builder: QueryBuilder<Postgres> = QueryBuilder::new(head);
    builder.push_values(rows.iter(), |mut row, article| {
        row.push_bind(article.title.clone())
            .push_bind(article.content.clone())
            .push_bind(article.published_date.clone());
    });
    builder.into_sql()
}

/// The columns that an insert names, in the order of their placeholders.
pub open spec fn insert_head() -> Seq<char> {
    "INSERT INTO articles (title, content, published_date)"@
}

/// The text of an insert of `rows` articles: the head and a `VALUES` clause
/// of `rows` rows of three placeholders.
pub open spec fn insert_sql(rows: nat) -> Seq<char> {
    insert_head() + values_clause(rows, 3)
}

/// The `column`-th field of an article as a bound value.
pub open spec fn field_param(a: ArticleView, column: int) -> ParamView {
    if column == 0 {
        ParamView::Text(a.title)
    } else if column == 1 {
        ParamView::Text(a.content)
    } else {
        ParamView::Text(a.published_date)
    }
}

/// The values bound by an insert of `articles`: title, content and date of
/// the first, then of the second, and so on.
pub open spec fn insert_params(articles: Seq<ArticleView>) -> Seq<ParamView> {
    Seq::new(3 * articles.len(), |i: int| field_param(articles[i / 3], i % 3))
}

/// The statement that inserts `articles`.
pub open spec fn insert_statement(articles: Seq<ArticleView>) -> StatementView {
    StatementView { sql: insert_sql(articles.len()), params: insert_params(articles) }
}

/// The views of a sequence of articles.
pub open spec fn article_views(articles: Seq<Article>) -> Seq<ArticleView> {
    articles.map_values(|a: Article| a@)
}

/// Whether `articles` can be inserted by one statement: there is at least
/// one, and every text of each can travel as a bound value.
pub open spec fn insertable(articles: Seq<ArticleView>) -> bool {
    &&& articles.len() > 0
    &&& forall|i: int| 0 <= i < articles.len() ==> (#[trigger] articles[i]).bindable()
}

/// The statement that inserts all `articles` at once, every field bound.
pub fn insert_many(articles: &Vec<Article>) -> (s: Statement)
    requires
        insertable(article_views(articles@)),
    ensures
        s@ == insert_statement(article_views(articles@)),
{
    let ghost views = article_views(articles@);
    assert forall|i: int| 0 <= i < articles@.len() implies (#[trigger] articles@[i])@.bindable() by {
        assert(views[i].bindable());
    }
    let sql = values_sql("INSERT INTO articles (title, content, published_date)", articles);
    let mut params: Vec<Param> = Vec::new();
    let mut i: usize = 0;
    while i < articles.len()
        invariant
            i <= articles.len(),
            params@.len() == 3 * i,
            forall|j: int|
                0 <= j < params@.len() ==> (#[trigger] params@[j])@ == field_param(
                    articles@[j / 3]@,
                    j % 3,
                ),
        decreases articles.len() - i,
    {
        let a = &articles[i];
        params.push(Param::Text(a.title.clone()));
        params.push(Param::Text(a.content.clone()));
        params.push(Param::Text(a.published_date.clone()));
        i = i + 1;
    }
    let s = Statement { sql, params };
    assert(s@.params =~= insert_params(views));
    s
}

/// Tests `insertable` on `articles`.
pub fn can_insert(articles: &Vec<Article>) -> (b: bool)
    ensures
        b == insertable(article_views(articles@)),
{
    let ghost views = article_views(articles@);
    if articles.len() == 0 {
        return false;
    }
    let mut i: usize = 0;
    while i < articles.len()
        invariant
            i <= articles.len(),
            views == article_views(articles@),
            forall|j: int| 0 <= j < i ==> (#[trigger] views[j]).bindable(),
        decreases articles.len() - i,
    {
        if !articles[i].is_bindable() {
            assert(!views[i as int].bindable());
            return false;
        }
        i = i + 1;
    }
    true
}

/// The statement that inserts all `articles` at once, or `None` where no
/// single statement can: for no article, or for a text too long to bind.
pub fn try_insert_many(articles: &Vec<Article>) -> (r: Option<Statement>)
    ensures
        r is Some <==> insertable(article_views(articles@)),
        r matches Some(s) ==> s@ == insert_statement(article_views(articles@)),
{
    if can_insert(articles) {
        Some(insert_many(articles))
    } else {
        None
    }
}


/// The text of a lookup by identifier: the identifier is the one bound
/// value.
pub open spec fn select_sql() -> Seq<char> {
    "SELECT title, content, published_date FROM articles WHERE id = "@ + placeholder(1)
}

/// The statement that looks up the article with identifier `key`.
pub open spec fn select_statement(key: nat) -> StatementView {
    StatementView { sql: select_sql(), params: seq![ParamView::Id(key)] }
}

/// The text of an insert of one article, written out.
pub proof fn lemma_insert_sql_of_one()
    ensures
        insert_sql(1) == "INSERT INTO articles (title, content, published_date)VALUES ($1, $2, $3)"@,
{
    reveal_strlit("INSERT INTO articles (title, content, published_date)");
    reveal_strlit("INSERT INTO articles (title, content, published_date)VALUES ($1, $2, $3)");
    reveal_with_fuel(placeholder_list, 4);
    assert(decimal(1) =~= seq!['1']);
    assert(decimal(2) =~= seq!['2']);
    assert(decimal(3) =~= seq!['3']);
    assert(placeholder_list(1, 3) =~= seq!['$', '1', ',', ' ', '$', '2', ',', ' ', '$', '3']);
    assert(tuple_list(1, 3) =~= seq!['(', '$', '1', ',', ' ', '$', '2', ',', ' ', '$', '3', ')']);
    assert(insert_sql(1)
        =~= "INSERT INTO articles (title, content, published_date)VALUES ($1, $2, $3)"@);
}

/// The text of a lookup, written out.
pub proof fn lemma_select_sql_text()
    ensures
        select_sql() == "SELECT title, content, published_date FROM articles WHERE id = $1"@,
{
    reveal_strlit("SELECT title, content, published_date FROM articles WHERE id = ");
    reveal_strlit("SELECT title, content, published_date FROM articles WHERE id = $1");
    assert(decimal(1) =~= seq!['1']);
    assert(select_sql()
        =~= "SELECT title, content, published_date FROM articles WHERE id = $1"@);
}

/// Statement mapping for a record type with keys of type `T`: the
/// statement that stores a record, and the one that looks a record up.
pub trait SQLStatements<T>: Sized {
    /// Whether one statement can store this record.
    spec fn storable(&self) -> bool;

    /// The statement that `insert` returns.
    spec fn insert_spec(&self) -> StatementView;

    /// The statement that `select` returns.
    spec fn select_spec(key: T) -> StatementView;

    /// The statement that stores this record, every field bound.
    fn insert(&self) -> (s: Statement)
        requires
            self.storable(),
        ensures
            s@ == self.insert_spec(),
    ;

    /// The statement that looks up the record with identifier `key`, the
    /// identifier bound.
    fn select(key: T) -> (s: Statement)
        ensures
            s@ == Self::select_spec(key),
    ;
}

impl SQLStatements<usize> for Article {
    open spec fn storable(&self) -> bool {
        self@.bindable()
    }

    open spec fn insert_spec(&self) -> StatementView {
        insert_statement(seq![self@])
    }

    open spec fn select_spec(key: usize) -> StatementView {
        select_statement(key as nat)
    }

    fn insert(&self) -> (s: Statement) {
        let mut rows: Vec<Article> = Vec::new();
        rows.push(self.duplicate());
        assert(article_views(rows@) =~= seq![self@]);
        insert_many(&rows)
    }

    fn select(key: usize) -> (s: Statement) {
        proof {
            lemma_select_sql_text();
        }
        let sql = String::from_str(
            "SELECT title, content, published_date FROM articles WHERE id = $1",
        );
        let mut params: Vec<Param> = Vec::new();
        params.push(Param::Id(key));
        let s = Statement { sql, params };
        assert(s@.params =~= seq![ParamView::Id(key as nat)]);
        s
    }
}

impl Article {
    /// The statement that stores this record, or `None` where one of its
    /// texts is too long to bind.
    pub fn try_insert(&self) -> (r: Option<Statement>)
        ensures
            r is Some <==> self@.bindable(),
            r matches Some(s) ==> s@ == insert_statement(seq![self@]),
    {
        if self.is_bindable() {
            Some(self.insert())
        } else {
            None
        }
    }
}


} // verus!
