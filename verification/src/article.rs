//! The article record and its mathematical view.

use vstd::prelude::*;
use vstd::slice::*;
use vstd::utf8::*;

verus! {

/// The largest number of bytes that one bound value may occupy: the wire
/// protocol of the store writes the length of a value as a signed 32-bit
/// integer.
pub const MAX_BOUND_BYTES: usize = 0x7fff_ffff;

/// Whether a text can travel as one bound value: its UTF-8 encoding is at
/// most `MAX_BOUND_BYTES` long.
pub open spec fn bindable_text(s: Seq<char>) -> bool {
    encode_utf8(s).len() <= MAX_BOUND_BYTES
}

/// Tests `bindable_text` on a string.
pub fn is_bindable_text(s: &str) -> (b: bool)
    ensures
        b == bindable_text(s@),
{
    broadcast use axiom_spec_len;

    s.as_bytes().len() <= MAX_BOUND_BYTES
}

/// A short text record. The date is an opaque string: it is neither parsed
/// nor validated here.
#[derive(Clone, Debug, PartialEq, Eq)]
pub struct Article {
    pub title: String,
    pub content: String,
    pub published_date: String,
}

/// What an `Article` is: three texts.
pub struct ArticleView {
    pub title: Seq<char>,
    pub content: Seq<char>,
    pub published_date: Seq<char>,
}

impl View for Article {
    type V = ArticleView;

    open spec fn view(&self) -> ArticleView {
        ArticleView {
            title: self.title@,
            content: self.content@,
            published_date: self.published_date@,
        }
    }
}

impl ArticleView {
    /// Whether each of the three texts can travel as a bound value.
    pub open spec fn bindable(self) -> bool {
        &&& bindable_text(self.title)
        &&& bindable_text(self.content)
        &&& bindable_text(self.published_date)
    }
}

impl Article {
    /// Builds a record from its three texts.
    pub fn new(title: String, content: String, published_date: String) -> (a: Article)
        ensures
            a@ == (ArticleView {
                title: title@,
                content: content@,
                published_date: published_date@,
            }),
    {
        Article { title, content, published_date }
    }

    /// Tests whether each of the three texts can travel as a bound value.
    pub fn is_bindable(&self) -> (b: bool)
        ensures
            b == self@.bindable(),
    {
        is_bindable_text(self.title.as_str()) && is_bindable_text(self.content.as_str())
            && is_bindable_text(self.published_date.as_str())
    }

    /// A copy of the record, field by field.
    pub fn duplicate(&self) -> (a: Article)
        ensures
            a@ == self@,
    {
        Article {
            title: self.title.clone(),
            content: self.content.clone(),
            published_date: self.published_date.clone(),
        }
    }
}

} // verus!
