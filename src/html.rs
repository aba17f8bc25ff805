//! Access to parsed HTML documents through the `scraper` crate.
//!
//! The markup engine is trusted: its results are given names, and the
//! counting logic in `parser` is verified against those names.
use scraper::{Html, Selector};
use vstd::prelude::*;

verus! {

/// The inner markup of every element of `html` matched by `selector`, in
/// the order in which the parser created the elements; `None` when the
/// selector is not valid CSS.
pub uninterp spec fn selected_html(html: Seq<char>, selector: Seq<char>) -> Option<Seq<Seq<char>>>;

/// For every element of `html` matched by `rows`, the inner markup of its
/// first descendant matched by `first` and of its first descendant matched
/// by `second`; `None` when one of the selectors is not valid CSS.
pub uninterp spec fn selected_row_cells(
    html: Seq<char>,
    rows: Seq<char>,
    first: Seq<char>,
    second: Seq<char>,
) -> Option<Seq<(Option<Seq<char>>, Option<Seq<char>>)>>;

/// `s` with its leading and trailing whitespace removed.
pub uninterp spec fn trimmed(s: Seq<char>) -> Seq<char>;

pub open spec fn texts(v: Seq<String>) -> Seq<Seq<char>> {
    v.map_values(|s: String| s@)
}

pub open spec fn opt_text(o: Option<String>) -> Option<Seq<char>> {
    match o {
        Some(s) => Some(s@),
        None => None,
    }
}

pub open spec fn row_texts(v: Seq<(Option<String>, Option<String>)>) -> Seq<(Option<Seq<char>>, Option<Seq<char>>)> {
    v.map_values(|p: (Option<String>, Option<String>)| (opt_text(p.0), opt_text(p.1)))
}

/// Relies on scraper's `Selector::parse`, `Html::parse_document`,
/// `Html::select` and `ElementRef::inner_html`: the inner markup of the
/// matched elements, in the order in which the parser created them.
#[verifier::external_body]
pub(crate) fn select_inner_html(html: &str, selector: &str) -> (r: Option<Vec<String>>)
    ensures
        match r {
            Some(v) => selected_html(html@, selector@) == Some(texts(v@)),
            None => selected_html(html@, selector@) is None,
        },
{
    let selector = Selector::parse(selector).ok()?;
    let document = Html::parse_document(html);
    Some(document.select(&selector).map(|e| e.inner_html()).collect())
}

/// Relies on scraper's `Selector::parse`, `Html::parse_document`,
/// `Html::select`, `ElementRef::select` and `ElementRef::inner_html`: for
/// each matched row, the inner markup of the first matching cell of each
/// of the two cell selectors.
#[verifier::external_body]
pub(crate) fn select_row_cells(html: &str, rows: &str, first: &str, second: &str) -> (r: Option<
    Vec<(Option<String>, Option<String>)>,
>)
    ensures
        match r {
            Some(v) => selected_row_cells(html@, rows@, first@, second@) == Some(row_texts(v@)),
            None => selected_row_cells(html@, rows@, first@, second@) is None,
        },
{
    let rows = Selector::parse(rows).ok()?;
    let first = Selector::parse(first).ok()?;
    let second = Selector::parse(second).ok()?;
    let document = Html::parse_document(html);
    Some(document.select(&rows).map(|row| (
        row.select(&first).next().map(|e| e.inner_html()),
        row.select(&second).next().map(|e| e.inner_html()),
    )).collect())
}

/// Relies on `str::trim`: the text without leading and trailing whitespace.
#[verifier::external_body]
pub(crate) fn trim_text(s: &str) -> (r: String)
    ensures
        r@ == trimmed(s@),
{
    s.trim().to_string()
}

} // verus!
