//! One entry of a listing page.

use vstd::prelude::*;

verus! {

/// One search result. A field that is `None` was not on the page.
#[derive(Debug, Clone, PartialEq, Eq)]
pub struct ScholarResult {
    pub title: String,
    /// The author line up to the venue, year and source that end it.
    pub author: String,
    /// The snippet shown under the title.
    pub abs: String,
    pub conference: Option<String>,
    pub link: String,
    pub pdf_link: Option<String>,
    /// The source that ends the author line.
    pub domain: String,
    pub year: Option<String>,
    pub citations: Option<u64>,
}

/// A search result as a mathematical value.
pub struct ScholarResultView {
    pub title: Seq<char>,
    pub author: Seq<char>,
    pub abs: Seq<char>,
    pub conference: Option<Seq<char>>,
    pub link: Seq<char>,
    pub pdf_link: Option<Seq<char>>,
    pub domain: Seq<char>,
    pub year: Option<Seq<char>>,
    pub citations: Option<u64>,
}

impl View for ScholarResult {
    type V = ScholarResultView;

    open spec fn view(&self) -> ScholarResultView {
        ScholarResultView {
            title: self.title@,
            author: self.author@,
            abs: self.abs@,
            conference: self.conference.deep_view(),
            link: self.link@,
            pdf_link: self.pdf_link.deep_view(),
            domain: self.domain@,
            year: self.year.deep_view(),
            citations: self.citations,
        }
    }
}

impl DeepView for ScholarResult {
    type V = ScholarResultView;

    open spec fn deep_view(&self) -> ScholarResultView {
        self@
    }
}

impl ScholarResult {
    /// A result with the given fields.
    pub fn new(
        title: String,
        author: String,
        abs: String,
        conference: Option<String>,
        link: String,
        pdf_link: Option<String>,
        domain: String,
        year: Option<String>,
        citations: Option<u64>,
    ) -> (result: Self)
        ensures
            result@ == (ScholarResultView {
                title: title@,
                author: author@,
                abs: abs@,
                conference: conference.deep_view(),
                link: link@,
                pdf_link: pdf_link.deep_view(),
                domain: domain@,
                year: year.deep_view(),
                citations,
            }),
    {
        ScholarResult { title, author, abs, conference, link, pdf_link, domain, year, citations }
    }
}

} // verus!
