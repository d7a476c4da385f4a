use scholar::pipeline::{finish, next_step, start, Step};
use scholar::{Args, Error, ScholarArgs, Services};

fn query(text: &str) -> ScholarArgs {
    ScholarArgs {
        query: String::from(text),
        cite_id: None,
        from_year: None,
        to_year: None,
        sort_by: None,
        cluster_id: None,
        lang: None,
        lang_limit: None,
        limit: Some(3),
        offset: Some(0),
        adult_filtering: None,
        include_similar_results: None,
        include_citations: None,
    }
}

struct Unsupported;

impl Args for Unsupported {
    fn get_service(&self) -> Services {
        Services::Scholar
    }

    fn get_url(&self) -> Result<String, Error> {
        Err(Error::NotImplementedError)
    }

    fn get_limit(&self) -> usize {
        0
    }
}

#[test]
fn start_asks_for_the_url_of_the_query() {
    match start(&query("machine-learning")) {
        Step::Fetch(url) => assert_eq!(
            url,
            "https://scholar.google.com/scholar?q=machine-learning&num=3&start=0"
        ),
        Step::Done(_) => panic!("nothing was fetched"),
    }
}

#[test]
fn start_ends_with_the_failure_of_the_query() {
    match start(&query("")) {
        Step::Done(outcome) => assert_eq!(outcome, Err(Error::RequiredFieldError)),
        Step::Fetch(_) => panic!("an empty query was sent"),
    }
    match start(&Unsupported) {
        Step::Done(outcome) => assert_eq!(outcome, Err(Error::NotImplementedError)),
        Step::Fetch(_) => panic!("a failure was passed over"),
    }
}

#[test]
fn next_step_keeps_the_error() {
    for e in [
        Error::ConnectionError(String::from("refused")),
        Error::ParseError,
        Error::InvalidServiceError,
        Error::RequiredFieldError,
        Error::NotImplementedError,
        Error::InvalidResponseError,
    ] {
        match next_step(Err(e.clone())) {
            Step::Done(outcome) => assert_eq!(outcome, Err(e)),
            Step::Fetch(_) => panic!("a failure was passed over"),
        }
    }
    match next_step(Ok(String::from("u"))) {
        Step::Fetch(url) => assert_eq!(url, "u"),
        Step::Done(_) => panic!("nothing was fetched"),
    }
}

#[test]
fn finish_maps_a_failed_fetch_to_a_connection_error_with_its_detail() {
    assert_eq!(
        finish(Err(String::from("timed out"))),
        Err(Error::ConnectionError(String::from("timed out")))
    );
    assert_eq!(finish(Err(String::new())), Err(Error::ConnectionError(String::new())));
}

#[test]
fn finish_reads_the_records_of_the_page() {
    let page = "<html><body><div class=\"gs_or\"><h3 class=\"gs_rt\"><a href=\"https://example.org/a\">Title</a></h3><div class=\"gs_a\">J Doe - venue, 2020 - example.org</div><div class=\"gs_rs\">Snippet</div><div class=\"gs_flb\">Cited by 5&nbsp;</div></div></body></html>";
    let records = finish(Ok(String::from(page))).unwrap();
    assert_eq!(records.len(), 1);
    assert_eq!(records[0].title, "Title");
    assert_eq!(records[0].author, "J Doe");
    assert_eq!(records[0].conference, Some(String::from("venue")));
    assert_eq!(records[0].year, Some(String::from("2020")));
    assert_eq!(records[0].domain, "example.org");
    assert_eq!(records[0].link, "https://example.org/a");
    assert_eq!(records[0].citations, Some(5));
    assert_eq!(finish(Ok(String::new())), Ok(vec![]));
}
