//! From a listing page to its result records.

use crate::author::{author_line_of, author_line_pattern, decompose, AuthorLine, AuthorLineView};
use crate::citations::{citation_count, citation_pattern, citations_of};
use crate::error::Error;
use crate::pattern::regex_captures;
use crate::result::{ScholarResult, ScholarResultView};
use crate::select::{select_parts, selected_parts};
use crate::text::copied;
use vstd::prelude::*;

verus! {

/// What was found of one result on a page: each field is `None` where the
/// page does not have that part.
#[derive(Debug, Clone, PartialEq, Eq)]
pub struct ResultBlock {
    pub title: Option<String>,
    pub link: Option<String>,
    pub abs: Option<String>,
    pub author_line: Option<String>,
    pub actions: Option<String>,
    pub pdf_link: Option<String>,
}

/// A result block as a mathematical value.
pub struct ResultBlockView {
    pub title: Option<Seq<char>>,
    pub link: Option<Seq<char>>,
    pub abs: Option<Seq<char>>,
    pub author_line: Option<Seq<char>>,
    pub actions: Option<Seq<char>>,
    pub pdf_link: Option<Seq<char>>,
}

impl View for ResultBlock {
    type V = ResultBlockView;

    open spec fn view(&self) -> ResultBlockView {
        ResultBlockView {
            title: self.title.deep_view(),
            link: self.link.deep_view(),
            abs: self.abs.deep_view(),
            author_line: self.author_line.deep_view(),
            actions: self.actions.deep_view(),
            pdf_link: self.pdf_link.deep_view(),
        }
    }
}

impl DeepView for ResultBlock {
    type V = ResultBlockView;

    open spec fn deep_view(&self) -> ResultBlockView {
        self@
    }
}

/// The record for a block whose author line and citation count have been
/// read. There is one where the block has a title, a link and a snippet and
/// its author line is matched; the footer and the second link may be missing.
pub open spec fn record_of(
    block: ResultBlockView,
    line: AuthorLineView,
    citations: Option<u64>,
) -> Option<ScholarResultView> {
    if block.title is Some && block.link is Some && block.abs is Some
        && line is Matched {
        Some(
            ScholarResultView {
                title: block.title->0,
                author: line->author,
                abs: block.abs->0,
                conference: line->conference,
                link: block.link->0,
                pdf_link: block.pdf_link,
                domain: line->domain,
                year: line->year,
                citations,
            },
        )
    } else {
        None
    }
}

/// What the author line of a block holds; a block without one is unmatched.
pub open spec fn block_author_line(block: ResultBlockView) -> AuthorLineView {
    match block.author_line {
        Some(line) => author_line_of(line, regex_captures(author_line_pattern(), line)),
        None => AuthorLineView::Unmatched,
    }
}

/// The citation count in the footer of a block; a block without one has none.
pub open spec fn block_citations(block: ResultBlockView) -> Option<u64> {
    match block.actions {
        Some(actions) => citations_of(regex_captures(citation_pattern(), actions)),
        None => None,
    }
}

/// The record for a block, where it gives one.
pub open spec fn block_record(block: ResultBlockView) -> Option<ScholarResultView> {
    record_of(block, block_author_line(block), block_citations(block))
}

/// The records of a sequence of blocks: one for each block that gives one, in
/// the order of the blocks.
pub open spec fn records(blocks: Seq<ResultBlockView>) -> Seq<ScholarResultView>
    decreases blocks.len(),
{
    if blocks.len() == 0 {
        Seq::empty()
    } else {
        match block_record(blocks.last()) {
            Some(record) => records(blocks.drop_last()).push(record),
            None => records(blocks.drop_last()),
        }
    }
}

/// The number of blocks of a sequence that give no record.
pub open spec fn dropped(blocks: Seq<ResultBlockView>) -> nat
    decreases blocks.len(),
{
    if blocks.len() == 0 {
        0
    } else if block_record(blocks.last()) is None {
        dropped(blocks.drop_last()) + 1
    } else {
        dropped(blocks.drop_last())
    }
}

/// A block whose author line the pattern matches nowhere gives no record,
/// whatever else the block holds.
pub proof fn lemma_unmatched_line_gives_no_record(block: ResultBlockView)
    requires
        block.author_line matches Some(line) ==> regex_captures(author_line_pattern(), line)
            is None,
    ensures
        block_author_line(block) is Unmatched,
        block_record(block) is None,
{
}

/// Every block gives one record or is dropped: there are as many records as
/// there are blocks, less those that are dropped.
pub proof fn lemma_records_count(blocks: Seq<ResultBlockView>)
    ensures
        records(blocks).len() + dropped(blocks) == blocks.len(),
    decreases blocks.len(),
{
    if blocks.len() > 0 {
        lemma_records_count(blocks.drop_last());
    }
}

/// Where every block gives a record, there is one record for each block, and
/// the records stand in the order of their blocks.
pub proof fn lemma_records_in_order(blocks: Seq<ResultBlockView>)
    requires
        forall|i: int| 0 <= i < blocks.len() ==> block_record(#[trigger] blocks[i]) is Some,
    ensures
        records(blocks).len() == blocks.len(),
        forall|i: int|
            0 <= i < blocks.len() ==> Some(#[trigger] records(blocks)[i]) == block_record(
                blocks[i],
            ),
    decreases blocks.len(),
{
    if blocks.len() > 0 {
        let front = blocks.drop_last();
        assert forall|i: int| 0 <= i < front.len() implies block_record(#[trigger] front[i])
            is Some by {
            assert(front[i] == blocks[i]);
        }
        lemma_records_in_order(front);
        assert(block_record(blocks[blocks.len() - 1]) is Some);
        assert forall|i: int| 0 <= i < blocks.len() implies Some(#[trigger] records(blocks)[i])
            == block_record(blocks[i]) by {
            if i < front.len() {
                assert(front[i] == blocks[i]);
                assert(records(blocks)[i] == records(front)[i]);
            }
        }
    }
}

/// The records are those of the blocks that give one, in the order of the
/// blocks: taking blocks away from the end takes records away from the end.
pub proof fn lemma_records_of_prefix(blocks: Seq<ResultBlockView>, n: int)
    requires
        0 <= n <= blocks.len(),
    ensures
        records(blocks.take(n)).is_prefix_of(records(blocks)),
    decreases blocks.len() - n,
{
    if n < blocks.len() {
        lemma_records_of_prefix(blocks, n + 1);
        assert(blocks.take(n + 1).drop_last() == blocks.take(n));
    } else {
        assert(blocks.take(n) == blocks);
    }
}

/// A block with a title, a link and a snippet whose author line is matched
/// without a venue and without a year gives a record that has neither, and
/// that has the source of the line.
pub proof fn lemma_line_without_venue_and_year(block: ResultBlockView)
    requires
        block.title is Some,
        block.link is Some,
        block.abs is Some,
        block_author_line(block) matches AuthorLineView::Matched { conference, year, .. }
            && conference is None && year is None,
    ensures
        block_record(block) matches Some(record) && record.conference is None && record.year
            is None && record.domain == block_author_line(block)->domain && record.author
            == block_author_line(block)->author,
{
}

/// Builds the record for a block whose author line and citation count have
/// been read.
pub fn build_record(block: &ResultBlock, line: AuthorLine, citations: Option<u64>) -> (record:
    Option<ScholarResult>)
    ensures
        record.deep_view() == record_of(block@, line@, citations),
{
    let title = match &block.title {
        Some(t) => t.clone(),
        None => {
            return None;
        },
    };
    let link = match &block.link {
        Some(l) => l.clone(),
        None => {
            return None;
        },
    };
    let abs = match &block.abs {
        Some(a) => a.clone(),
        None => {
            return None;
        },
    };
    match line {
        AuthorLine::Matched { author, conference, year, domain } => Some(
            ScholarResult::new(
                title,
                author,
                abs,
                conference,
                link,
                copied(&block.pdf_link),
                domain,
                year,
                citations,
            ),
        ),
        AuthorLine::Unmatched => None,
    }
}

/// Builds the record for a block: reads its author line and its footer, and
/// puts the result together.
pub fn record_from_block(block: &ResultBlock) -> (record: Option<ScholarResult>)
    ensures
        record.deep_view() == block_record(block@),
{
    let line = match &block.author_line {
        Some(text) => decompose(text.as_str()),
        None => AuthorLine::Unmatched,
    };
    let citations = match &block.actions {
        Some(text) => citation_count(text.as_str()),
        None => None,
    };
    build_record(block, line, citations)
}

/// Builds the records of the blocks that give one, in the order of the blocks.
pub fn collect_records(blocks: &Vec<ResultBlock>) -> (found: Vec<ScholarResult>)
    ensures
        found.deep_view() == records(blocks.deep_view()),
{
    let mut found: Vec<ScholarResult> = Vec::new();
    let mut i: usize = 0;
    while i < blocks.len()
        invariant
            i <= blocks.len(),
            found.deep_view() == records(blocks.deep_view().take(i as int)),
        decreases blocks.len() - i,
    {
        let ghost before = found.deep_view();
        proof {
            let all = blocks.deep_view();
            assert(all.take(i + 1).drop_last() == all.take(i as int));
            assert(all.take(i + 1).last() == blocks@[i as int]@);
        }
        match record_from_block(&blocks[i]) {
            Some(record) => {
                found.push(record);
                proof {
                    assert(found.deep_view() =~= before.push(record@));
                }
            },
            None => {},
        }
        i += 1;
    }
    proof {
        assert(blocks.deep_view().take(i as int) == blocks.deep_view());
    }
    found
}

/// The text of the part at index `i` of a row: that of the first element
/// found for it. A row that is too short, or in which nothing was found for the
/// part, has no such text.
pub open spec fn text_at(row: Seq<Seq<(Seq<char>, Option<Seq<char>>)>>, i: int) -> Option<
    Seq<char>,
> {
    if 0 <= i < row.len() && row[i].len() > 0 {
        Some(row[i].first().0)
    } else {
        None
    }
}

/// The attribute value of the part at index `i` of a row: that of the first
/// element found for it, if it has one. A row that is too short, or in which
/// nothing was found for the part, has no such value.
pub open spec fn attr_at(row: Seq<Seq<(Seq<char>, Option<Seq<char>>)>>, i: int) -> Option<
    Seq<char>,
> {
    if 0 <= i < row.len() && row[i].len() > 0 {
        row[i].first().1
    } else {
        None
    }
}

/// The selectors of the six parts of a block, below the block: the title,
/// the link in the title, the snippet, the author line, the footer and the
/// second link.
pub open spec fn part_selectors() -> Seq<Seq<char>> {
    seq![".gs_rt"@, ".gs_rt a"@, ".gs_rs"@, ".gs_a"@, ".gs_flb"@, ".gs_or_ggsm a"@]
}

/// The block that a row of parts stands for: the texts of the title, the
/// snippet, the author line and the footer, and the attribute values of the
/// two links.
pub open spec fn block_of(row: Seq<Seq<(Seq<char>, Option<Seq<char>>)>>) -> ResultBlockView {
    ResultBlockView {
        title: text_at(row, 0),
        link: attr_at(row, 1),
        abs: text_at(row, 2),
        author_line: text_at(row, 3),
        actions: text_at(row, 4),
        pdf_link: attr_at(row, 5),
    }
}

/// The blocks that the rows of a page stand for, row by row.
pub open spec fn blocks_of(
    rows: Seq<Seq<Seq<(Seq<char>, Option<Seq<char>>)>>>,
) -> Seq<ResultBlockView> {
    Seq::new(rows.len(), |i: int| block_of(rows[i]))
}

/// The outcome of an extraction, given what the selectors found: a parse
/// error where they found nothing to go by, else the records of the blocks.
pub open spec fn extracted(
    rows: Option<Seq<Seq<Seq<(Seq<char>, Option<Seq<char>>)>>>>,
) -> Result<Seq<ScholarResultView>, Error> {
    match rows {
        Some(found) => Ok(records(blocks_of(found))),
        None => Err(Error::ParseError),
    }
}

/// The outcome of an extraction as a mathematical value.
pub open spec fn outcome_view(outcome: Result<Vec<ScholarResult>, Error>) -> Result<
    Seq<ScholarResultView>,
    Error,
> {
    match outcome {
        Ok(found) => Ok(found.deep_view()),
        Err(e) => Err(e),
    }
}

fn part_text(row: &Vec<Vec<(String, Option<String>)>>, i: usize) -> (text: Option<String>)
    ensures
        text.deep_view() == text_at(row.deep_view(), i as int),
{
    if i < row.len() && row[i].len() > 0 {
        let found = &row[i];
        Some(found[0].0.clone())
    } else {
        None
    }
}

fn part_attr(row: &Vec<Vec<(String, Option<String>)>>, i: usize) -> (value: Option<String>)
    ensures
        value.deep_view() == attr_at(row.deep_view(), i as int),
{
    if i < row.len() && row[i].len() > 0 {
        let found = &row[i];
        copied(&found[0].1)
    } else {
        None
    }
}

/// The block that a row of parts stands for.
pub fn block_from_row(row: &Vec<Vec<(String, Option<String>)>>) -> (block: ResultBlock)
    ensures
        block@ == block_of(row.deep_view()),
{
    ResultBlock {
        title: part_text(row, 0),
        link: part_attr(row, 1),
        abs: part_text(row, 2),
        author_line: part_text(row, 3),
        actions: part_text(row, 4),
        pdf_link: part_attr(row, 5),
    }
}

/// Turns what the selectors found into the records of the page.
pub fn assemble(rows: Option<Vec<Vec<Vec<(String, Option<String>)>>>>) -> (outcome: Result<
    Vec<ScholarResult>,
    Error,
>)
    ensures
        outcome_view(outcome) == extracted(rows.deep_view()),
{
    let found = match rows {
        Some(found) => found,
        None => {
            return Err(Error::ParseError);
        },
    };
    let mut blocks: Vec<ResultBlock> = Vec::new();
    let mut i: usize = 0;
    while i < found.len()
        invariant
            i <= found.len(),
            blocks.len() == i,
            forall|j: int| 0 <= j < i ==> (#[trigger] blocks@[j])@ == block_of(found@[j].deep_view()),
        decreases found.len() - i,
    {
        blocks.push(block_from_row(&found[i]));
        i += 1;
    }
    proof {
        assert(blocks.deep_view() =~= blocks_of(found.deep_view()));
    }
    Ok(collect_records(&blocks))
}

/// The outcome of the extraction from the HTML text of a listing page: each
/// element of class `gs_or` is one block, below which the six parts are
/// selected, the links by their attribute `href`.
pub open spec fn extraction(document: Seq<char>) -> Result<Seq<ScholarResultView>, Error> {
    extracted(selected_parts(document, ".gs_or"@, part_selectors(), "href"@))
}

/// Reads the result records from the HTML text of a listing page. Each
/// element of class `gs_or` is one block; a block gives a record where it has
/// a title (`.gs_rt`), a link (`href` of `.gs_rt a`), a snippet (`.gs_rs`) and
/// an author line (`.gs_a`) that is matched. Its footer (`.gs_flb`) and its
/// second link (`href` of `.gs_or_ggsm a`) may be missing. Where a block has
/// several elements for one part, the first counts.
pub fn scrape_serialize(document: String) -> (outcome: Result<Vec<ScholarResult>, Error>)
    ensures
        outcome_view(outcome) == extraction(document@),
{
    let fields: Vec<&str> = vec![".gs_rt", ".gs_rt a", ".gs_rs", ".gs_a", ".gs_flb", ".gs_or_ggsm a"];
    proof {
        assert(fields.deep_view() =~= part_selectors());
    }
    let rows = select_parts(document.as_str(), ".gs_or", &fields, "href");
    assemble(rows)
}

} // verus!
