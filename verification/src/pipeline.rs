//! The steps of a search: build the URL, have the page fetched, read the
//! records. Fetching is done by the caller, between `start` and `finish`.

use crate::args::Args;
use crate::error::Error;
use crate::extract::{extraction, outcome_view, scrape_serialize};
use crate::result::ScholarResult;
use vstd::prelude::*;

verus! {

/// What a search does next.
#[derive(Debug)]
pub enum Step {
    /// Fetch the page at this URL, and hand the outcome to `finish`.
    Fetch(String),
    /// The search is over, with this outcome.
    Done(Result<Vec<ScholarResult>, Error>),
}

/// Whether `step` is the step that follows the building of a URL with the
/// outcome `url`: a URL is fetched, and a failure ends the search unchanged.
pub open spec fn follows(url: Result<String, Error>, step: Step) -> bool {
    match url {
        Ok(text) => step matches Step::Fetch(request) && request@ == text@,
        Err(e) => step == Step::Done(Err(e)),
    }
}

/// The step that follows the building of the URL: a URL is fetched, and a
/// failure ends the search unchanged.
pub fn next_step(url: Result<String, Error>) -> (step: Step)
    ensures
        follows(url, step),
{
    match url {
        Ok(text) => Step::Fetch(text),
        Err(e) => Step::Done(Err(e)),
    }
}

/// The first step of a search for `args`: to fetch the URL that `args` gives,
/// or to end with the failure that it reports. The step is the one that
/// follows an outcome of `get_url` on `args`; for a query type whose `get_url`
/// has a contract, that fixes the step.
pub fn start<A: Args + ?Sized>(args: &A) -> (step: Step)
    ensures
        exists|url: Result<String, Error>|
            call_ensures(A::get_url, (args,), url) && #[trigger] follows(url, step),
        step matches Step::Done(outcome) ==> outcome is Err,
{
    let url = args.get_url();
    next_step(url)
}

/// The outcome of a search whose page was fetched or not. A failed fetch is
/// a connection error that holds what the transport said of it, whatever the
/// cause, and a fetched page gives its records.
pub fn finish(fetched: Result<String, String>) -> (outcome: Result<Vec<ScholarResult>, Error>)
    ensures
        match fetched {
            Ok(document) => outcome_view(outcome) == extraction(document@),
            Err(detail) => outcome matches Err(Error::ConnectionError(text)) && text@ == detail@,
        },
{
    match fetched {
        Ok(document) => scrape_serialize(document),
        Err(detail) => Err(Error::ConnectionError(detail)),
    }
}

} // verus!
