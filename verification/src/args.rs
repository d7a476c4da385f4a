//! The query model and the request URL that it stands for.

use crate::encode::{
    bool_flag, decimal, lemma_decimal_unchanged, lemma_percent_encoding_is_one_value,
    lemma_percent_encoding_round_trip, lemma_plain_text_unchanged, own_display, percent_decoded,
    percent_encode, percent_encoded,
};
use crate::error::Error;
use crate::text::copied;
use vstd::prelude::*;
use vstd::string::StringExecFns;

verus! {

/// What a search service needs to know of a query.
pub trait Args {
    /// The service that the query is meant for.
    fn get_service(&self) -> Services;

    /// The URL to request, or the reason why the query cannot be sent.
    fn get_url(&self) -> Result<String, Error>;

    /// The largest number of results asked for; zero where none is set.
    fn get_limit(&self) -> usize;
}

/// The search services that can be queried.
#[derive(Debug, Clone, Copy, PartialEq, Eq, Structural)]
pub enum Services {
    Scholar,
}

/// The endpoint of a service, up to and including the `?` that starts the
/// query.
pub open spec fn base_url(service: Services) -> Seq<char> {
    match service {
        Services::Scholar => "https://scholar.google.com/scholar?"@,
    }
}

/// The endpoint of `service`.
pub fn get_base_url(service: Services) -> (url: &'static str)
    ensures
        url@ == base_url(service),
{
    match service {
        Services::Scholar => "https://scholar.google.com/scholar?",
    }
}

impl Services {
    /// The endpoint of this service.
    pub fn get_base_url(&self) -> (url: &'static str)
        ensures
            url@ == base_url(*self),
    {
        self::get_base_url(*self)
    }
}

/// A search query. A field that is `None` is left out of the request.
#[derive(Debug, Clone)]
pub struct ScholarArgs {
    /// q - required
    pub query: String,
    /// cites - citation id to trigger "cited by"
    pub cite_id: Option<String>,
    /// as_ylo - give results from this year onwards
    pub from_year: Option<u16>,
    /// as_yhi - give results up to this year
    pub to_year: Option<u16>,
    /// scisbd - 0 for relevance, 1 to include only abstracts, 2 for
    /// everything; other values are ignored
    pub sort_by: Option<u8>,
    /// cluster - query all versions
    pub cluster_id: Option<String>,
    /// hl - language of the interface, eg: hl=en for english
    pub lang: Option<String>,
    /// lr - one or multiple languages to limit the results to,
    /// eg: lr=lang_fr|lang_en
    pub lang_limit: Option<String>,
    /// num - max number of results to return
    pub limit: Option<u32>,
    /// start - result offset. Can be used with limit for pagination
    pub offset: Option<u32>,
    /// safe - level of filtering, safe=active or safe=off
    pub adult_filtering: Option<bool>,
    /// filter - whether to give similar/omitted results,
    /// filter=1 for similar results and 0 for omitted
    pub include_similar_results: Option<bool>,
    /// as_vis - set to 1 for including citations, otherwise 0
    pub include_citations: Option<bool>,
}

/// A query as a mathematical value.
pub struct ScholarArgsView {
    pub query: Seq<char>,
    pub cite_id: Option<Seq<char>>,
    pub from_year: Option<u16>,
    pub to_year: Option<u16>,
    pub sort_by: Option<u8>,
    pub cluster_id: Option<Seq<char>>,
    pub lang: Option<Seq<char>>,
    pub lang_limit: Option<Seq<char>>,
    pub limit: Option<u32>,
    pub offset: Option<u32>,
    pub adult_filtering: Option<bool>,
    pub include_similar_results: Option<bool>,
    pub include_citations: Option<bool>,
}

impl View for ScholarArgs {
    type V = ScholarArgsView;

    open spec fn view(&self) -> ScholarArgsView {
        ScholarArgsView {
            query: self.query@,
            cite_id: self.cite_id.deep_view(),
            from_year: self.from_year,
            to_year: self.to_year,
            sort_by: self.sort_by,
            cluster_id: self.cluster_id.deep_view(),
            lang: self.lang.deep_view(),
            lang_limit: self.lang_limit.deep_view(),
            limit: self.limit,
            offset: self.offset,
            adult_filtering: self.adult_filtering,
            include_similar_results: self.include_similar_results,
            include_citations: self.include_citations,
        }
    }
}

/// The value of a year parameter: its decimal form.
pub open spec fn year_value(year: Option<u16>) -> Option<Seq<char>> {
    match year {
        Some(y) => Some(decimal(y as nat)),
        None => None,
    }
}

/// The value of a counting parameter: its decimal form.
pub open spec fn count_value(count: Option<u32>) -> Option<Seq<char>> {
    match count {
        Some(n) => Some(decimal(n as nat)),
        None => None,
    }
}

/// The value of the sort parameter: the decimal form of a mode below three.
/// Any other mode is passed over.
pub open spec fn sort_value(mode: Option<u8>) -> Option<Seq<char>> {
    match mode {
        Some(m) => if m < 3 {
            Some(decimal(m as nat))
        } else {
            None
        },
        None => None,
    }
}

/// The value of a flag: one of its two tokens.
pub open spec fn flag_value(flag: Option<bool>, set: Seq<char>, unset: Seq<char>) -> Option<
    Seq<char>,
> {
    match flag {
        Some(f) => Some(if f { set } else { unset }),
        None => None,
    }
}

/// The parameters of a query, in the order in which they are sent: each name
/// with its value, or with `None` where the query leaves it out.
pub open spec fn parameters(args: ScholarArgsView) -> Seq<(Seq<char>, Option<Seq<char>>)> {
    seq![
        ("q"@, Some(args.query)),
        ("cites"@, args.cite_id),
        ("as_ylo"@, year_value(args.from_year)),
        ("as_yhi"@, year_value(args.to_year)),
        ("scisbd"@, sort_value(args.sort_by)),
        ("cluster"@, args.cluster_id),
        ("hl"@, args.lang),
        ("lr"@, args.lang_limit),
        ("num"@, count_value(args.limit)),
        ("start"@, count_value(args.offset)),
        ("safe"@, flag_value(args.adult_filtering, "active"@, "off"@)),
        ("filter"@, flag_value(args.include_similar_results, "1"@, "0"@)),
        ("as_vis"@, flag_value(args.include_citations, "1"@, "0"@)),
    ]
}

/// The query string for a list of parameters: for each one that has a value,
/// in order, its percent-encoded name, `=` and its percent-encoded value, with
/// `&` between one and the next.
pub open spec fn serialized(params: Seq<(Seq<char>, Option<Seq<char>>)>) -> Seq<char>
    decreases params.len(),
{
    if params.len() == 0 {
        Seq::empty()
    } else {
        let before = serialized(params.drop_last());
        match params.last().1 {
            None => before,
            Some(value) => before + (if before.len() > 0 {
                seq!['&']
            } else {
                Seq::empty()
            }) + percent_encoded(params.last().0) + seq!['='] + percent_encoded(value),
        }
    }
}

/// The request URL of a query: the endpoint followed by the query string of
/// its parameters.
pub open spec fn request_url(args: ScholarArgsView) -> Seq<char> {
    base_url(Services::Scholar) + serialized(parameters(args))
}

/// One parameter that follows another: `&`, its name, `=` and its value.
pub open spec fn pair(name: Seq<char>, value: Seq<char>) -> Seq<char> {
    seq!['&'] + name + seq!['='] + value
}

proof fn lemma_serialized_push(
    params: Seq<(Seq<char>, Option<Seq<char>>)>,
    name: Seq<char>,
    value: Option<Seq<char>>,
)
    ensures
        serialized(params.push((name, value))) == match value {
            None => serialized(params),
            Some(v) => if serialized(params).len() > 0 {
                serialized(params) + pair(percent_encoded(name), percent_encoded(v))
            } else {
                percent_encoded(name) + seq!['='] + percent_encoded(v)
            },
        },
{
    let longer = params.push((name, value));
    assert(longer.drop_last() == params);
    assert(longer.last() == (name, value));
    if let Some(v) = value {
        let before = serialized(params);
        if before.len() > 0 {
            assert(before + seq!['&'] + percent_encoded(name) + seq!['='] + percent_encoded(v)
                =~= before + pair(percent_encoded(name), percent_encoded(v)));
        } else {
            assert(before + Seq::<char>::empty() + percent_encoded(name) + seq!['=']
                + percent_encoded(v) =~= percent_encoded(name) + seq!['='] + percent_encoded(v));
        }
    }
}

proof fn lemma_names_unchanged()
    ensures
        percent_encoded("q"@) == "q"@,
        percent_encoded("cites"@) == "cites"@,
        percent_encoded("as_ylo"@) == "as_ylo"@,
        percent_encoded("as_yhi"@) == "as_yhi"@,
        percent_encoded("scisbd"@) == "scisbd"@,
        percent_encoded("cluster"@) == "cluster"@,
        percent_encoded("hl"@) == "hl"@,
        percent_encoded("lr"@) == "lr"@,
        percent_encoded("num"@) == "num"@,
        percent_encoded("start"@) == "start"@,
        percent_encoded("safe"@) == "safe"@,
        percent_encoded("filter"@) == "filter"@,
        percent_encoded("as_vis"@) == "as_vis"@,
{
    reveal_strlit("q");
    reveal_strlit("cites");
    reveal_strlit("as_ylo");
    reveal_strlit("as_yhi");
    reveal_strlit("scisbd");
    reveal_strlit("cluster");
    reveal_strlit("hl");
    reveal_strlit("lr");
    reveal_strlit("num");
    reveal_strlit("start");
    reveal_strlit("safe");
    reveal_strlit("filter");
    reveal_strlit("as_vis");
    lemma_plain_text_unchanged("q"@);
    lemma_plain_text_unchanged("cites"@);
    lemma_plain_text_unchanged("as_ylo"@);
    lemma_plain_text_unchanged("as_yhi"@);
    lemma_plain_text_unchanged("scisbd"@);
    lemma_plain_text_unchanged("cluster"@);
    lemma_plain_text_unchanged("hl"@);
    lemma_plain_text_unchanged("lr"@);
    lemma_plain_text_unchanged("num"@);
    lemma_plain_text_unchanged("start"@);
    lemma_plain_text_unchanged("safe"@);
    lemma_plain_text_unchanged("filter"@);
    lemma_plain_text_unchanged("as_vis"@);
}

proof fn lemma_tokens_unchanged()
    ensures
        percent_encoded("active"@) == "active"@,
        percent_encoded("off"@) == "off"@,
        percent_encoded("1"@) == "1"@,
        percent_encoded("0"@) == "0"@,
{
    reveal_strlit("active");
    reveal_strlit("off");
    reveal_strlit("1");
    reveal_strlit("0");
    lemma_plain_text_unchanged("active"@);
    lemma_plain_text_unchanged("off"@);
    lemma_plain_text_unchanged("1"@);
    lemma_plain_text_unchanged("0"@);
}

/// The parameters of a query, listed one by one as they are appended.
proof fn lemma_parameters_pushed(args: ScholarArgsView)
    ensures
        parameters(args) == Seq::<(Seq<char>, Option<Seq<char>>)>::empty().push(
            ("q"@, Some(args.query)),
        ).push(("cites"@, args.cite_id)).push(("as_ylo"@, year_value(args.from_year))).push(
            ("as_yhi"@, year_value(args.to_year)),
        ).push(("scisbd"@, sort_value(args.sort_by))).push(("cluster"@, args.cluster_id)).push(
            ("hl"@, args.lang),
        ).push(("lr"@, args.lang_limit)).push(("num"@, count_value(args.limit))).push(
            ("start"@, count_value(args.offset)),
        ).push(("safe"@, flag_value(args.adult_filtering, "active"@, "off"@))).push(
            ("filter"@, flag_value(args.include_similar_results, "1"@, "0"@)),
        ).push(("as_vis"@, flag_value(args.include_citations, "1"@, "0"@))),
{
    let pushed = Seq::<(Seq<char>, Option<Seq<char>>)>::empty().push(
        ("q"@, Some(args.query)),
    ).push(("cites"@, args.cite_id)).push(("as_ylo"@, year_value(args.from_year))).push(
        ("as_yhi"@, year_value(args.to_year)),
    ).push(("scisbd"@, sort_value(args.sort_by))).push(("cluster"@, args.cluster_id)).push(
        ("hl"@, args.lang),
    ).push(("lr"@, args.lang_limit)).push(("num"@, count_value(args.limit))).push(
        ("start"@, count_value(args.offset)),
    ).push(("safe"@, flag_value(args.adult_filtering, "active"@, "off"@))).push(
        ("filter"@, flag_value(args.include_similar_results, "1"@, "0"@)),
    ).push(("as_vis"@, flag_value(args.include_citations, "1"@, "0"@)));
    assert(parameters(args) =~= pushed);
}

/// The query string of a query, parameter by parameter: `q` first, then each
/// further parameter that has a value, as `&name=value`, in the order `cites`,
/// `as_ylo`, `as_yhi`, `scisbd`, `cluster`, `hl`, `lr`, `num`, `start`, `safe`,
/// `filter`, `as_vis`.
pub proof fn lemma_serialized_parameters(args: ScholarArgsView)
    ensures
        serialized(parameters(args)) == "q"@ + seq!['='] + percent_encoded(args.query)
            + optional_pair("cites"@, args.cite_id)
            + optional_pair("as_ylo"@, year_value(args.from_year))
            + optional_pair("as_yhi"@, year_value(args.to_year))
            + optional_pair("scisbd"@, sort_value(args.sort_by))
            + optional_pair("cluster"@, args.cluster_id)
            + optional_pair("hl"@, args.lang)
            + optional_pair("lr"@, args.lang_limit)
            + optional_pair("num"@, count_value(args.limit))
            + optional_pair("start"@, count_value(args.offset))
            + optional_pair("safe"@, flag_value(args.adult_filtering, "active"@, "off"@))
            + optional_pair("filter"@, flag_value(args.include_similar_results, "1"@, "0"@))
            + optional_pair("as_vis"@, flag_value(args.include_citations, "1"@, "0"@)),
{
    lemma_names_unchanged();
    lemma_parameters_pushed(args);
    let list0 = Seq::<(Seq<char>, Option<Seq<char>>)>::empty();
    let list1 = list0.push(("q"@, Some(args.query)));
    let list2 = list1.push(("cites"@, args.cite_id));
    let list3 = list2.push(("as_ylo"@, year_value(args.from_year)));
    let list4 = list3.push(("as_yhi"@, year_value(args.to_year)));
    let list5 = list4.push(("scisbd"@, sort_value(args.sort_by)));
    let list6 = list5.push(("cluster"@, args.cluster_id));
    let list7 = list6.push(("hl"@, args.lang));
    let list8 = list7.push(("lr"@, args.lang_limit));
    let list9 = list8.push(("num"@, count_value(args.limit)));
    let list10 = list9.push(("start"@, count_value(args.offset)));
    let list11 = list10.push(("safe"@, flag_value(args.adult_filtering, "active"@, "off"@)));
    let list12 = list11.push(("filter"@, flag_value(args.include_similar_results, "1"@, "0"@)));
    let list13 = list12.push(("as_vis"@, flag_value(args.include_citations, "1"@, "0"@)));
    lemma_serialized_push(list0, "q"@, Some(args.query));
    assert(serialized(list1) =~= "q"@ + seq!['='] + percent_encoded(args.query));
    lemma_serialized_next(list1, "cites"@, args.cite_id);
    lemma_serialized_next(list2, "as_ylo"@, year_value(args.from_year));
    lemma_serialized_next(list3, "as_yhi"@, year_value(args.to_year));
    lemma_serialized_next(list4, "scisbd"@, sort_value(args.sort_by));
    lemma_serialized_next(list5, "cluster"@, args.cluster_id);
    lemma_serialized_next(list6, "hl"@, args.lang);
    lemma_serialized_next(list7, "lr"@, args.lang_limit);
    lemma_serialized_next(list8, "num"@, count_value(args.limit));
    lemma_serialized_next(list9, "start"@, count_value(args.offset));
    lemma_serialized_next(list10, "safe"@, flag_value(args.adult_filtering, "active"@, "off"@));
    lemma_serialized_next(list11, "filter"@, flag_value(args.include_similar_results, "1"@, "0"@));
    lemma_serialized_next(list12, "as_vis"@, flag_value(args.include_citations, "1"@, "0"@));
}

/// A parameter that is appended to a query string that is not empty.
proof fn lemma_serialized_next(
    params: Seq<(Seq<char>, Option<Seq<char>>)>,
    name: Seq<char>,
    value: Option<Seq<char>>,
)
    requires
        serialized(params).len() > 0,
        percent_encoded(name) == name,
    ensures
        serialized(params.push((name, value))) == serialized(params) + optional_pair(name, value),
        serialized(params.push((name, value))).len() > 0,
{
    lemma_serialized_push(params, name, value);
    if value is None {
        assert(serialized(params) + Seq::<char>::empty() =~= serialized(params));
    }
}

/// A parameter that follows another, where it has a value, and nothing where
/// it has none.
pub open spec fn optional_pair(name: Seq<char>, value: Option<Seq<char>>) -> Seq<char> {
    match value {
        Some(v) => pair(name, percent_encoded(v)),
        None => Seq::empty(),
    }
}

/// A query that sets nothing but its text is sent to the endpoint with the
/// one parameter `q`, whose value is the percent-encoded text: the value holds
/// no `&` and no `=`, so that no second parameter starts in it, and decoding
/// it gives the text back.
pub proof fn lemma_query_only(args: ScholarArgsView)
    requires
        args.query.len() > 0,
        args.cite_id is None,
        args.from_year is None,
        args.to_year is None,
        args.sort_by is None,
        args.cluster_id is None,
        args.lang is None,
        args.lang_limit is None,
        args.limit is None,
        args.offset is None,
        args.adult_filtering is None,
        args.include_similar_results is None,
        args.include_citations is None,
    ensures
        request_url(args) == base_url(Services::Scholar) + "q"@ + seq!['=']
            + percent_encoded(args.query),
        forall|i: int|
            0 <= i < percent_encoded(args.query).len() ==> {
                let c = #[trigger] percent_encoded(args.query)[i];
                c != '&' && c != '='
            },
        percent_decoded(percent_encoded(args.query)) == args.query,
{
    lemma_percent_encoding_round_trip(args.query);
    lemma_percent_encoding_is_one_value(args.query);
    lemma_serialized_parameters(args);
    assert(serialized(parameters(args)) =~= "q"@ + seq!['='] + percent_encoded(args.query));
    assert(request_url(args) =~= base_url(Services::Scholar) + "q"@ + seq!['=']
        + percent_encoded(args.query));
}

/// A query that sets every field, with a sort mode below three, is sent with
/// all thirteen parameters in their fixed order: text percent-encoded, numbers
/// in decimal, and each flag as one of its two tokens.
pub proof fn lemma_all_fields(args: ScholarArgsView)
    requires
        args.cite_id is Some,
        args.from_year is Some,
        args.to_year is Some,
        args.sort_by is Some,
        args.sort_by->0 < 3,
        args.cluster_id is Some,
        args.lang is Some,
        args.lang_limit is Some,
        args.limit is Some,
        args.offset is Some,
        args.adult_filtering is Some,
        args.include_similar_results is Some,
        args.include_citations is Some,
    ensures
        request_url(args) == base_url(Services::Scholar) + "q"@ + seq!['=']
            + percent_encoded(args.query)
            + pair("cites"@, percent_encoded(args.cite_id->0))
            + pair("as_ylo"@, decimal(args.from_year->0 as nat))
            + pair("as_yhi"@, decimal(args.to_year->0 as nat))
            + pair("scisbd"@, decimal(args.sort_by->0 as nat))
            + pair("cluster"@, percent_encoded(args.cluster_id->0))
            + pair("hl"@, percent_encoded(args.lang->0))
            + pair("lr"@, percent_encoded(args.lang_limit->0))
            + pair("num"@, decimal(args.limit->0 as nat))
            + pair("start"@, decimal(args.offset->0 as nat))
            + pair("safe"@, if args.adult_filtering->0 { "active"@ } else { "off"@ })
            + pair("filter"@, if args.include_similar_results->0 { "1"@ } else { "0"@ })
            + pair("as_vis"@, if args.include_citations->0 { "1"@ } else { "0"@ }),
{
    lemma_serialized_parameters(args);
    lemma_tokens_unchanged();
    lemma_decimal_unchanged(args.from_year->0 as nat);
    lemma_decimal_unchanged(args.to_year->0 as nat);
    lemma_decimal_unchanged(args.sort_by->0 as nat);
    lemma_decimal_unchanged(args.limit->0 as nat);
    lemma_decimal_unchanged(args.offset->0 as nat);
    let head = "q"@ + seq!['='] + percent_encoded(args.query);
    assert(serialized(parameters(args)) == head
        + pair("cites"@, percent_encoded(args.cite_id->0))
        + pair("as_ylo"@, decimal(args.from_year->0 as nat))
        + pair("as_yhi"@, decimal(args.to_year->0 as nat))
        + pair("scisbd"@, decimal(args.sort_by->0 as nat))
        + pair("cluster"@, percent_encoded(args.cluster_id->0))
        + pair("hl"@, percent_encoded(args.lang->0))
        + pair("lr"@, percent_encoded(args.lang_limit->0))
        + pair("num"@, decimal(args.limit->0 as nat))
        + pair("start"@, decimal(args.offset->0 as nat))
        + pair("safe"@, if args.adult_filtering->0 { "active"@ } else { "off"@ })
        + pair("filter"@, if args.include_similar_results->0 { "1"@ } else { "0"@ })
        + pair("as_vis"@, if args.include_citations->0 { "1"@ } else { "0"@ }));
    assert(request_url(args) =~= base_url(Services::Scholar) + "q"@ + seq!['=']
        + percent_encoded(args.query)
        + pair("cites"@, percent_encoded(args.cite_id->0))
        + pair("as_ylo"@, decimal(args.from_year->0 as nat))
        + pair("as_yhi"@, decimal(args.to_year->0 as nat))
        + pair("scisbd"@, decimal(args.sort_by->0 as nat))
        + pair("cluster"@, percent_encoded(args.cluster_id->0))
        + pair("hl"@, percent_encoded(args.lang->0))
        + pair("lr"@, percent_encoded(args.lang_limit->0))
        + pair("num"@, decimal(args.limit->0 as nat))
        + pair("start"@, decimal(args.offset->0 as nat))
        + pair("safe"@, if args.adult_filtering->0 { "active"@ } else { "off"@ })
        + pair("filter"@, if args.include_similar_results->0 { "1"@ } else { "0"@ })
        + pair("as_vis"@, if args.include_citations->0 { "1"@ } else { "0"@ }));
}

/// A sort mode of three or more is not sent: the parameter `scisbd` has no
/// value, and the request URL is that of the same query without a sort mode.
pub proof fn lemma_sort_mode_ignored(args: ScholarArgsView)
    requires
        args.sort_by is Some,
        args.sort_by->0 >= 3,
    ensures
        parameters(args)[4] == ("scisbd"@, None::<Seq<char>>),
        request_url(args) == request_url(ScholarArgsView { sort_by: None, ..args }),
{
    assert(parameters(args) =~= parameters(ScholarArgsView { sort_by: None, ..args }));
}

/// Appends the query string of `params` to `url`.
pub fn append_pairs(url: &mut String, params: &Vec<(&'static str, Option<String>)>)
    ensures
        final(url)@ == old(url)@ + serialized(params.deep_view()),
{
    let ghost start = url@;
    let ghost all = params.deep_view();
    let mut written = false;
    let mut i: usize = 0;
    while i < params.len()
        invariant
            i <= params.len(),
            all == params.deep_view(),
            url@ == start + serialized(all.take(i as int)),
            written == (serialized(all.take(i as int)).len() > 0),
        decreases params.len() - i,
    {
        proof {
            assert(all.take(i + 1).drop_last() == all.take(i as int));
            assert(all.take(i + 1).last() == params@[i as int].deep_view());
        }
        let key: &str = params[i].0;
        match &params[i].1 {
            Some(value) => {
                if written {
                    url.push('&');
                }
                let name = percent_encode(key);
                url.append(name.as_str());
                url.push('=');
                let text = percent_encode(value.as_str());
                url.append(text.as_str());
                written = true;
            },
            None => {},
        }
        i += 1;
    }
    proof {
        assert(all.take(i as int) == all);
    }
}

fn year(value: Option<u16>) -> (text: Option<String>)
    ensures
        text.deep_view() == year_value(value),
{
    match value {
        Some(y) => Some(own_display(y as u32)),
        None => None,
    }
}

fn count(value: Option<u32>) -> (text: Option<String>)
    ensures
        text.deep_view() == count_value(value),
{
    match value {
        Some(n) => Some(own_display(n)),
        None => None,
    }
}

fn sort(mode: Option<u8>) -> (text: Option<String>)
    ensures
        text.deep_view() == sort_value(mode),
{
    match mode {
        Some(m) => if m < 3 {
            Some(own_display(m as u32))
        } else {
            None
        },
        None => None,
    }
}

fn flag(value: Option<bool>, set: &'static str, unset: &'static str) -> (text: Option<String>)
    ensures
        text.deep_view() == flag_value(value, set@, unset@),
{
    match value {
        Some(f) => Some(bool_flag(f, set, unset).to_owned()),
        None => None,
    }
}

impl ScholarArgs {
    /// The parameters of this query, in the order in which they are sent.
    pub fn query_params(&self) -> (params: Vec<(&'static str, Option<String>)>)
        ensures
            params.deep_view() == parameters(self@),
    {
        let mut params: Vec<(&'static str, Option<String>)> = Vec::new();
        params.push(("q", Some(self.query.clone())));
        params.push(("cites", copied(&self.cite_id)));
        params.push(("as_ylo", year(self.from_year)));
        params.push(("as_yhi", year(self.to_year)));
        params.push(("scisbd", sort(self.sort_by)));
        params.push(("cluster", copied(&self.cluster_id)));
        params.push(("hl", copied(&self.lang)));
        params.push(("lr", copied(&self.lang_limit)));
        params.push(("num", count(self.limit)));
        params.push(("start", count(self.offset)));
        params.push(("safe", flag(self.adult_filtering, "active", "off")));
        params.push(("filter", flag(self.include_similar_results, "1", "0")));
        params.push(("as_vis", flag(self.include_citations, "1", "0")));
        proof {
            assert(params.deep_view() =~= parameters(self@));
        }
        params
    }
}

impl Args for ScholarArgs {
    fn get_service(&self) -> (service: Services)
        ensures
            service == Services::Scholar,
    {
        Services::Scholar
    }

    /// The request URL of this query. An empty query string is refused, and
    /// nothing else is.
    fn get_url(&self) -> (url: Result<String, Error>)
        ensures
            match url {
                Ok(text) => self@.query.len() > 0 && text@ == request_url(self@),
                Err(e) => self@.query.len() == 0 && e == Error::RequiredFieldError,
            },
    {
        if self.query.as_str().is_empty() {
            return Err(Error::RequiredFieldError);
        }
        let mut url = self.get_service().get_base_url().to_owned();
        let params = self.query_params();
        append_pairs(&mut url, &params);
        Ok(url)
    }

    fn get_limit(&self) -> (limit: usize)
        ensures
            limit == match self.limit {
                Some(n) => n as usize,
                None => 0,
            },
    {
        match self.limit {
            Some(n) => n as usize,
            None => 0,
        }
    }
}

} // verus!
