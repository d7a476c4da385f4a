//! The author line of a result: the authors, followed by a dash and then by
//! an optional venue, an optional year and the source.

use crate::pattern::{captures, regex_captures};
use crate::text::{chars_of, copied, string_of};
use vstd::prelude::*;

verus! {

/// What an author line holds.
#[derive(Debug, Clone, PartialEq, Eq)]
pub enum AuthorLine {
    /// The line ends in a dash and a source, with or without a venue and a
    /// year between the two.
    Matched { author: String, conference: Option<String>, year: Option<String>, domain: String },
    /// The line does not end that way.
    Unmatched,
}

/// An author line as a mathematical value.
pub enum AuthorLineView {
    Matched {
        author: Seq<char>,
        conference: Option<Seq<char>>,
        year: Option<Seq<char>>,
        domain: Seq<char>,
    },
    Unmatched,
}

impl View for AuthorLine {
    type V = AuthorLineView;

    open spec fn view(&self) -> AuthorLineView {
        match self {
            AuthorLine::Matched { author, conference, year, domain } => AuthorLineView::Matched {
                author: author@,
                conference: conference.deep_view(),
                year: year.deep_view(),
                domain: domain@,
            },
            AuthorLine::Unmatched => AuthorLineView::Unmatched,
        }
    }
}

/// The regular expression for the end of an author line. Its groups are, by
/// index: 1 the whole ending, 3 the venue, 5 the year and 6 the source.
pub open spec fn author_line_pattern() -> Seq<char> {
    r"(?<post_authors>[\u{00A0}\s]- ((?<conference>.*), )?((?<year>\d{4}) - )?(?<domain>.*))$"@
}

/// The regular expression for the end of an author line.
pub fn get_author_line_pattern() -> (pattern: &'static str)
    ensures
        pattern@ == author_line_pattern(),
{
    r"(?<post_authors>[\u{00A0}\s]- ((?<conference>.*), )?((?<year>\d{4}) - )?(?<domain>.*))$"
}

/// The number of groups of the author line pattern, the whole match included.
pub const AUTHOR_GROUPS: usize = 7;

/// The index of the group that holds the whole ending.
pub const ENDING_GROUP: usize = 1;

/// The index of the group that holds the venue.
pub const CONFERENCE_GROUP: usize = 3;

/// The index of the group that holds the year.
pub const YEAR_GROUP: usize = 5;

/// The index of the group that holds the source.
pub const DOMAIN_GROUP: usize = 6;

/// What an author line holds, given what the author line pattern captured in
/// it. The line is matched where the pattern matched with all its groups, the
/// ending and the source took part, and the ending ends the line; the author
/// is then the line without that ending.
pub open spec fn author_line_of(
    line: Seq<char>,
    groups: Option<Seq<Option<Seq<char>>>>,
) -> AuthorLineView {
    match groups {
        Some(g) => if g.len() == AUTHOR_GROUPS && g[ENDING_GROUP as int] is Some
            && g[DOMAIN_GROUP as int] is Some && g[ENDING_GROUP as int]->0.is_suffix_of(line) {
            AuthorLineView::Matched {
                author: line.take(line.len() - g[ENDING_GROUP as int]->0.len()),
                conference: g[CONFERENCE_GROUP as int],
                year: g[YEAR_GROUP as int],
                domain: g[DOMAIN_GROUP as int]->0,
            }
        } else {
            AuthorLineView::Unmatched
        },
        None => AuthorLineView::Unmatched,
    }
}

/// A matched line is its author followed by the ending that the pattern
/// found, and its venue, year and source are what the pattern found for them.
pub proof fn lemma_matched_line(line: Seq<char>, groups: Option<Seq<Option<Seq<char>>>>)
    requires
        author_line_of(line, groups) is Matched,
    ensures
        groups is Some,
        groups->0.len() == AUTHOR_GROUPS,
        groups->0[ENDING_GROUP as int] is Some,
        line == author_line_of(line, groups)->author + groups->0[ENDING_GROUP as int]->0,
        groups->0[DOMAIN_GROUP as int] == Some(author_line_of(line, groups)->domain),
        groups->0[CONFERENCE_GROUP as int] == author_line_of(line, groups)->conference,
        groups->0[YEAR_GROUP as int] == author_line_of(line, groups)->year,
{
    let g = groups->0;
    let ending = g[ENDING_GROUP as int]->0;
    assert(line =~= line.take(line.len() - ending.len()) + ending);
}

/// Whether `part` ends `whole`.
pub fn ends_with(whole: &Vec<char>, part: &Vec<char>) -> (r: bool)
    ensures
        r == part@.is_suffix_of(whole@),
{
    if part.len() > whole.len() {
        return false;
    }
    let start: usize = whole.len() - part.len();
    let mut i: usize = 0;
    while i < part.len()
        invariant
            i <= part.len() <= whole.len(),
            start == whole.len() - part.len(),
            forall|j: int| 0 <= j < i ==> part@[j] == whole@[start + j],
        decreases part.len() - i,
    {
        if part[i] != whole[start + i] {
            proof {
                let tail = whole@.subrange(start as int, whole.len() as int);
                assert(tail[i as int] == whole@[start + i]);
            }
            return false;
        }
        i += 1;
    }
    proof {
        assert(part@ =~= whole@.subrange(start as int, whole.len() as int));
    }
    true
}

/// Takes an author line apart, given what the author line pattern captured
/// in it.
pub fn author_line_from(line: &str, groups: &Option<Vec<Option<String>>>) -> (parsed: AuthorLine)
    ensures
        parsed@ == author_line_of(line@, groups.deep_view()),
{
    let found = match groups {
        Some(g) => g,
        None => {
            return AuthorLine::Unmatched;
        },
    };
    if found.len() != AUTHOR_GROUPS {
        return AuthorLine::Unmatched;
    }
    let ending = match &found[ENDING_GROUP] {
        Some(e) => e,
        None => {
            return AuthorLine::Unmatched;
        },
    };
    let domain = match &found[DOMAIN_GROUP] {
        Some(d) => d,
        None => {
            return AuthorLine::Unmatched;
        },
    };
    let whole = chars_of(line);
    let part = chars_of(ending.as_str());
    if !ends_with(&whole, &part) {
        return AuthorLine::Unmatched;
    }
    let author = string_of(&whole, 0, whole.len() - part.len());
    AuthorLine::Matched {
        author,
        conference: copied(&found[CONFERENCE_GROUP]),
        year: copied(&found[YEAR_GROUP]),
        domain: domain.clone(),
    }
}

/// Takes an author line apart.
pub fn decompose(line: &str) -> (parsed: AuthorLine)
    ensures
        parsed@ == author_line_of(line@, regex_captures(author_line_pattern(), line@)),
{
    let groups = captures(get_author_line_pattern(), line);
    author_line_from(line, &groups)
}

} // verus!
