//! Reading the parts of an HTML document that CSS selectors point at.

use scraper::{ElementRef, Html, Selector};
use vstd::prelude::*;

verus! {

/// What the CSS selectors `fields` find in each block of the HTML document
/// `document`. There is one row for each element that the selector `block`
/// matches, in the order in which the parsed document yields them, and in each
/// row one entry for each selector of `fields`, in their order. The entry lists
/// the elements below the block that the selector matches, in the order in
/// which the block yields them: of each its text, and the value that it gives
/// to the attribute `attr`, if it has that attribute. The result is `None`
/// where `block` or one of `fields` is no CSS selector.
pub uninterp spec fn selected_parts(
    document: Seq<char>,
    block: Seq<char>,
    fields: Seq<Seq<char>>,
    attr: Seq<char>,
) -> Option<Seq<Seq<Seq<(Seq<char>, Option<Seq<char>>)>>>>;

/// `scraper::Html::parse_document` and `Html::select` with `block`; for each
/// element found and each selector of `fields`, every element of
/// `ElementRef::select`, of which `ElementRef::text` is concatenated and
/// `ElementRef::attr` is asked for `attr`. All selectors come from
/// `Selector::parse`. The result is what `selected_parts` names.
#[verifier::external_body]
pub(crate) fn select_parts(document: &str, block: &str, fields: &Vec<&str>, attr: &str) -> (rows:
    Option<Vec<Vec<Vec<(String, Option<String>)>>>>)
    ensures
        rows.deep_view() == selected_parts(document@, block@, fields.deep_view(), attr@),
{
    let block = Selector::parse(block).ok()?;
    let fields: Vec<Selector> = fields.iter().map(|f| Selector::parse(f).ok()).collect::<Option<_>>()?;
    let html = Html::parse_document(document);
    let part = |e: ElementRef| (e.text().collect(), e.attr(attr).map(String::from));
    let row = |b: ElementRef| fields.iter().map(|f| b.select(f).map(part).collect()).collect();
    Some(html.select(&block).map(row).collect())
}

} // verus!
