//! What the HTML parser finds on a page, handed over as plain values.
//!
//! Parsing HTML and matching CSS selectors is the work of the `scraper`
//! crate. Each function here parses a text, runs one selector over it and
//! copies out of every matching element what the library reads of it.

use vstd::prelude::*;
use scraper::{Html, Selector};
use selectors::attr::CaseSensitivity;

verus! {

/// One matching element of a table: the text nodes under it in document
/// order, and whether it carries the class that was asked about.
#[derive(Debug, Clone, PartialEq, Eq)]
pub struct Cell {
    pub texts: Vec<String>,
    pub marked: bool,
}

/// A `Cell` as a mathematical value.
pub struct CellView {
    pub texts: Seq<Seq<char>>,
    pub marked: bool,
}

impl DeepView for Cell {
    type V = CellView;

    open spec fn deep_view(&self) -> CellView {
        CellView { texts: self.texts.deep_view(), marked: self.marked }
    }
}

/// For each element of the document `page` that matches `selector`, in
/// document order, its text nodes; `None` if `selector` is no selector.
pub uninterp spec fn document_texts(page: Seq<char>, selector: Seq<char>) -> Option<
    Seq<Seq<Seq<char>>>,
>;

/// For each element of the document `page` that matches `selector`, in
/// document order, the element written out as HTML; `None` if `selector` is
/// no selector.
pub uninterp spec fn document_elements(page: Seq<char>, selector: Seq<char>) -> Option<
    Seq<Seq<char>>,
>;

/// For each element of the fragment `markup` that matches `selector`, in
/// document order, what stands inside the element, written out as HTML;
/// `None` if `selector` is no selector.
pub uninterp spec fn fragment_contents(markup: Seq<char>, selector: Seq<char>) -> Option<
    Seq<Seq<char>>,
>;

/// For each element of the fragment `markup` that matches `selector`, in
/// document order, its text nodes and whether it has the class `class`,
/// letter case of ASCII letters aside; `None` if `selector` is no selector.
pub uninterp spec fn fragment_cells(
    markup: Seq<char>,
    selector: Seq<char>,
    class: Seq<char>,
) -> Option<Seq<CellView>>;

/// Parses `page` with scraper's `Html::parse_document` and `selector` with
/// `Selector::parse`, walks `Html::select`, and copies the items of
/// `ElementRef::text` of each match. Trusted: the outcome depends on the two
/// texts alone.
#[verifier::external_body]
pub(crate) fn select_document_texts(page: &str, selector: &str) -> (r: Option<Vec<Vec<String>>>)
    ensures
        r.deep_view() == document_texts(page@, selector@),
{
    let selector = Selector::parse(selector).ok()?;
    let document = Html::parse_document(page);
    let mut found = Vec::new();
    for element in document.select(&selector) {
        found.push(element.text().map(String::from).collect());
    }
    Some(found)
}

/// Parses `page` with scraper's `Html::parse_document` and `selector` with
/// `Selector::parse`, walks `Html::select`, and takes `ElementRef::html` of
/// each match. Trusted: the outcome depends on the two texts alone.
#[verifier::external_body]
pub(crate) fn select_document_elements(page: &str, selector: &str) -> (r: Option<Vec<String>>)
    ensures
        r.deep_view() == document_elements(page@, selector@),
{
    let selector = Selector::parse(selector).ok()?;
    let document = Html::parse_document(page);
    let mut found = Vec::new();
    for element in document.select(&selector) {
        found.push(element.html());
    }
    Some(found)
}

/// Parses `markup` with scraper's `Html::parse_fragment` and `selector` with
/// `Selector::parse`, walks `Html::select`, and takes `ElementRef::inner_html`
/// of each match. Trusted: the outcome depends on the two texts alone.
#[verifier::external_body]
pub(crate) fn select_fragment_contents(markup: &str, selector: &str) -> (r: Option<Vec<String>>)
    ensures
        r.deep_view() == fragment_contents(markup@, selector@),
{
    let selector = Selector::parse(selector).ok()?;
    let fragment = Html::parse_fragment(markup);
    let mut found = Vec::new();
    for element in fragment.select(&selector) {
        found.push(element.inner_html());
    }
    Some(found)
}

/// Parses `markup` with scraper's `Html::parse_fragment` and `selector` with
/// `Selector::parse`, walks `Html::select`, and copies of each match the
/// items of `ElementRef::text` and the answer of `Element::has_class` for
/// `class`, asked with `CaseSensitivity::AsciiCaseInsensitive` of the
/// `selectors` crate. Trusted: the outcome depends on the three texts alone.
#[verifier::external_body]
pub(crate) fn select_fragment_cells(markup: &str, selector: &str, class: &str) -> (r: Option<
    Vec<Cell>,
>)
    ensures
        r.deep_view() == fragment_cells(markup@, selector@, class@),
{
    let selector = Selector::parse(selector).ok()?;
    let fragment = Html::parse_fragment(markup);
    let mut found = Vec::new();
    for element in fragment.select(&selector) {
        let texts = element.text().map(String::from).collect();
        let marked = element.value().has_class(class, CaseSensitivity::AsciiCaseInsensitive);
        found.push(Cell { texts, marked });
    }
    Some(found)
}

} // verus!
