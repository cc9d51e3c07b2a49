//! What holds of the statements and replies for every input.

use crate::article::ArticleView;
use crate::response::{
    fetch_reply, not_found_reply, FailureKind, QueryFailureView, Status,
};
use crate::statement::{
    insert_params, insert_sql, insert_statement, select_statement, ParamView,
};
use crate::text::decimal;
use vstd::prelude::*;

verus! {

/// The article that a row holds whose three columns were filled, in column
/// order, from three bound values.
pub open spec fn row_of_params(params: Seq<ParamView>) -> ArticleView {
    ArticleView {
        title: params[0]->Text_0,
        content: params[1]->Text_0,
        published_date: params[2]->Text_0,
    }
}

/// An insert binds the three texts of each article unchanged, in column
/// order, and nothing else.
pub proof fn lemma_insert_binds_fields_verbatim(articles: Seq<ArticleView>, i: int)
    requires
        0 <= i < articles.len(),
    ensures
        insert_params(articles).len() == 3 * articles.len(),
        insert_params(articles)[3 * i] == ParamView::Text(articles[i].title),
        insert_params(articles)[3 * i + 1] == ParamView::Text(articles[i].content),
        insert_params(articles)[3 * i + 2] == ParamView::Text(articles[i].published_date),
{
}

/// The values that the insert of one article binds, written to a row and
/// handed to the fetch handler as the row found, come back as that
/// article, equal in all three fields: whatever the texts hold, and for
/// every identifier.
pub proof fn lemma_bound_values_come_back(article: ArticleView, article_id: nat)
    ensures
        fetch_reply(article_id, Ok(row_of_params(insert_statement(seq![article]).params))) == Ok::<
            ArticleView,
            (Status, Seq<char>),
        >(article),
{
    lemma_insert_binds_fields_verbatim(seq![article], 0);
}

/// Where the store reports that no row matched, the fetch handler answers
/// "not found", and its message holds the decimal numeral of the
/// identifier that was asked for, behind the first sixteen characters. The
/// store's own description of the failure does not reach the message.
pub proof fn lemma_not_found_names_identifier(article_id: nat, detail: Seq<char>)
    ensures
        fetch_reply(
            article_id,
            Err((QueryFailureView { kind: FailureKind::RowNotFound, detail })),
        ) == Err::<ArticleView, (Status, Seq<char>)>(not_found_reply(article_id)),
        not_found_reply(article_id).0 == Status::NotFound,
        not_found_reply(article_id).1.subrange(16, 16 + decimal(article_id).len() as int) == decimal(
            article_id,
        ),
{
    reveal_strlit("Article with id ");
    assert(not_found_reply(article_id).1.subrange(16, 16 + decimal(article_id).len() as int)
        =~= decimal(article_id));
}

/// The text of an insert depends on the number of articles alone: no
/// title, content or date, whatever characters it holds, changes it.
pub proof fn lemma_insert_text_ignores_values(a: Seq<ArticleView>, b: Seq<ArticleView>)
    requires
        a.len() == b.len(),
    ensures
        insert_statement(a).sql == insert_statement(b).sql,
        insert_statement(a).sql == insert_sql(a.len()),
{
}

/// The text of a lookup is the same for every identifier: the identifier
/// is the one bound value and never part of the text.
pub proof fn lemma_select_text_ignores_key(j: nat, k: nat)
    ensures
        select_statement(j).sql == select_statement(k).sql,
        select_statement(k).params == seq![ParamView::Id(k)],
{
}

} // verus!
