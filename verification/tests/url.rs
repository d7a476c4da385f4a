use reqwest::Url;
use scholar::args::get_base_url;
use scholar::encode::{bool_flag, own_display, percent_encode};
use scholar::{Args, Error, ScholarArgs, Services};

fn query_only(query: &str) -> ScholarArgs {
    ScholarArgs {
        query: String::from(query),
        cite_id: None,
        from_year: None,
        to_year: None,
        sort_by: None,
        cluster_id: None,
        lang: None,
        lang_limit: None,
        limit: None,
        offset: None,
        adult_filtering: None,
        include_similar_results: None,
        include_citations: None,
    }
}

fn all_fields() -> ScholarArgs {
    ScholarArgs {
        query: String::from("abcd"),
        cite_id: Some(String::from("213123123123")),
        from_year: Some(2018),
        to_year: Some(2021),
        sort_by: Some(0),
        cluster_id: Some(String::from("3121312312")),
        lang: Some(String::from("en")),
        lang_limit: Some(String::from("lang_fr|lang_en")),
        limit: Some(10),
        offset: Some(5),
        adult_filtering: Some(true),
        include_similar_results: Some(true),
        include_citations: Some(true),
    }
}

#[test]
fn new_scholar_query() {
    let sc = ScholarArgs {
        query: String::from("machine-learning"),
        cite_id: None,
        from_year: None,
        to_year: None,
        sort_by: None,
        cluster_id: None,
        lang: None,
        lang_limit: None,
        limit: Some(3),
        offset: Some(0),
        adult_filtering: None,
        include_similar_results: None,
        include_citations: None,
    };
    assert_eq!(sc.query, "machine-learning");
}

#[test]
fn args_build_url_query() {
    let sc = ScholarArgs {
        query: String::from("abcd"),
        cite_id: None,
        from_year: None,
        to_year: None,
        sort_by: None,
        cluster_id: None,
        lang: None,
        lang_limit: None,
        limit: None,
        offset: None,
        adult_filtering: None,
        include_similar_results: None,
        include_citations: None,
    };

    let expected = Url::parse("https://scholar.google.com/scholar?q=abcd").unwrap();

    match sc.get_url() {
        Ok(url) => {
            let url = Url::parse(&url).unwrap();
            assert!(url.eq(&expected), "value was {}", url)
        }
        Err(_e) => assert_eq!(false, true),
    }
}

#[test]
fn args_build_url_all() {
    let sc = ScholarArgs {
        query: String::from("abcd"),
        cite_id: Some(String::from("213123123123")),
        from_year: Some(2018),
        to_year: Some(2021),
        sort_by: Some(0),
        cluster_id: Some(String::from("3121312312")),
        lang: Some(String::from("en")),
        lang_limit: Some(String::from("lang_fr|lang_en")),
        limit: Some(10),
        offset: Some(5),
        adult_filtering: Some(true),
        include_similar_results: Some(true),
        include_citations: Some(true),
    };

    let expected = Url::parse("https://scholar.google.com/scholar?q=abcd&cites=213123123123&as_ylo=2018&as_yhi=2021&scisbd=0&cluster=3121312312&hl=en&lr=lang_fr|lang_en&num=10&start=5&safe=active&filter=1&as_vis=1").unwrap();

    match sc.get_url() {
        Ok(url) => {
            let url = Url::parse(&url).unwrap();
            assert!(url.eq(&expected), "value was {}", url)
        }
        Err(_e) => assert_eq!(false, true),
    }
}

#[test]
fn scholar_build_url_query() {
    let sc = ScholarArgs {
        query: String::from("abcd"),
        cite_id: None,
        from_year: None,
        to_year: None,
        sort_by: None,
        cluster_id: None,
        lang: None,
        lang_limit: None,
        limit: None,
        offset: None,
        adult_filtering: None,
        include_similar_results: None,
        include_citations: None,
    };

    match sc.get_url() {
        Ok(url) => assert!(
            url.eq("https://scholar.google.com/scholar?q=abcd"),
            "value was {}",
            url
        ),
        Err(_e) => assert_eq!(false, true),
    }
}

#[test]
fn scholar_build_url_all() {
    let sc = ScholarArgs {
        query: String::from("abcd"),
        cite_id: Some(String::from("213123123123")),
        from_year: Some(2018),
        to_year: Some(2021),
        sort_by: Some(0),
        cluster_id: Some(String::from("3121312312")),
        lang: Some(String::from("en")),
        lang_limit: Some(String::from("lang_fr|lang_en")),
        limit: Some(10),
        offset: Some(5),
        adult_filtering: Some(true),
        include_similar_results: Some(true),
        include_citations: Some(true),
    };
    match sc.get_url() {
        Ok(url) => assert!(
            url.eq("https://scholar.google.com/scholar?q=abcd&cites=213123123123&as_ylo=2018&as_yhi=2021&scisbd=0&cluster=3121312312&hl=en&lr=lang_fr|lang_en&num=10&start=5&safe=active&filter=1&as_vis=1"), "value was {}", url),
        Err(_e) => assert_eq!(false, true),
    }
}

#[test]
fn empty_query_is_refused() {
    assert_eq!(query_only("").get_url(), Err(Error::RequiredFieldError));
    let mut sc = all_fields();
    sc.query = String::new();
    assert_eq!(sc.get_url(), Err(Error::RequiredFieldError));
}

#[test]
fn built_url_is_what_a_url_parser_keeps() {
    for sc in [all_fields(), query_only("machine learning"), query_only("a\"b#c<d>e'f")] {
        let url = sc.get_url().unwrap();
        assert_eq!(Url::parse(&url).unwrap().as_str(), url);
    }
}

#[test]
fn query_text_is_percent_encoded() {
    assert_eq!(
        query_only("machine learning").get_url().unwrap(),
        "https://scholar.google.com/scholar?q=machine%20learning"
    );
    assert_eq!(
        query_only("caf\u{e9} #1").get_url().unwrap(),
        "https://scholar.google.com/scholar?q=caf%C3%A9%20%231"
    );
}

#[test]
fn percent_encode_escapes_what_is_not_plain() {
    assert_eq!(percent_encode(""), "");
    assert_eq!(percent_encode("abcXYZ019-_.~|"), "abcXYZ019-_.~|");
    assert_eq!(percent_encode(" "), "%20");
    assert_eq!(percent_encode("\"#'<>"), "%22%23%27%3C%3E");
    assert_eq!(percent_encode("\u{0}\t\n\u{1f}\u{7f}"), "%00%09%0A%1F%7F");
    assert_eq!(percent_encode("!$()*,/:;?@[\\]^`{}"), "!$()*,/:;?@[\\]^`{}");
    assert_eq!(percent_encode("%&+="), "%25%26%2B%3D");
    assert_eq!(percent_encode("a+b%41"), "a%2Bb%2541");
    assert_eq!(percent_encode("a&b=c"), "a%26b%3Dc");
    assert_eq!(percent_encode("\u{e9}"), "%C3%A9");
    assert_eq!(percent_encode("\u{20ac}"), "%E2%82%AC");
    assert_eq!(percent_encode("\u{1f600}"), "%F0%9F%98%80");
    assert_eq!(percent_encode("a b"), "a%20b");
}

#[test]
fn optional_text_is_percent_encoded() {
    let mut sc = query_only("x");
    sc.cite_id = Some(String::from("a b"));
    sc.cluster_id = Some(String::from("c#d"));
    sc.lang = Some(String::from("p\u{e9}"));
    sc.lang_limit = Some(String::from("lang_<fr>"));
    assert_eq!(
        sc.get_url().unwrap(),
        "https://scholar.google.com/scholar?q=x&cites=a%20b&cluster=c%23d&hl=p%C3%A9&lr=lang_%3Cfr%3E"
    );
}

#[test]
fn sort_mode_of_three_or_more_is_left_out() {
    for mode in [3u8, 4, 10, 255] {
        let mut sc = query_only("abcd");
        sc.sort_by = Some(mode);
        assert_eq!(sc.get_url().unwrap(), "https://scholar.google.com/scholar?q=abcd");
        let mut all = all_fields();
        all.sort_by = Some(mode);
        let mut none = all_fields();
        none.sort_by = None;
        assert_eq!(all.get_url(), none.get_url());
        assert!(!all.get_url().unwrap().contains("scisbd"));
    }
}

#[test]
fn sort_mode_below_three_is_sent() {
    for (mode, text) in [(0u8, "0"), (1, "1"), (2, "2")] {
        let mut sc = query_only("abcd");
        sc.sort_by = Some(mode);
        assert_eq!(
            sc.get_url().unwrap(),
            format!("https://scholar.google.com/scholar?q=abcd&scisbd={}", text)
        );
    }
}

#[test]
fn flags_are_sent_as_their_tokens() {
    let mut sc = query_only("abcd");
    sc.adult_filtering = Some(false);
    sc.include_similar_results = Some(false);
    sc.include_citations = Some(false);
    assert_eq!(
        sc.get_url().unwrap(),
        "https://scholar.google.com/scholar?q=abcd&safe=off&filter=0&as_vis=0"
    );
    sc.adult_filtering = Some(true);
    sc.include_similar_results = None;
    sc.include_citations = Some(true);
    assert_eq!(
        sc.get_url().unwrap(),
        "https://scholar.google.com/scholar?q=abcd&safe=active&as_vis=1"
    );
}

#[test]
fn numbers_are_sent_in_decimal() {
    let mut sc = query_only("abcd");
    sc.from_year = Some(0);
    sc.to_year = Some(65535);
    sc.limit = Some(4294967295);
    sc.offset = Some(100);
    assert_eq!(
        sc.get_url().unwrap(),
        "https://scholar.google.com/scholar?q=abcd&as_ylo=0&as_yhi=65535&num=4294967295&start=100"
    );
}

#[test]
fn query_params_lists_every_parameter_in_order() {
    let params = all_fields().query_params();
    let names: Vec<&str> = params.iter().map(|p| p.0).collect();
    assert_eq!(
        names,
        vec![
            "q", "cites", "as_ylo", "as_yhi", "scisbd", "cluster", "hl", "lr", "num", "start",
            "safe", "filter", "as_vis"
        ]
    );
    assert!(params.iter().all(|p| p.1.is_some()));
    let params = query_only("abcd").query_params();
    assert_eq!(params.len(), 13);
    assert_eq!(params[0], ("q", Some(String::from("abcd"))));
    assert!(params[1..].iter().all(|p| p.1.is_none()));
}

#[test]
fn own_display_renders_decimal() {
    assert_eq!(own_display(0), "0");
    assert_eq!(own_display(7), "7");
    assert_eq!(own_display(10), "10");
    assert_eq!(own_display(2018), "2018");
    assert_eq!(own_display(1000000), "1000000");
    assert_eq!(own_display(u32::MAX), "4294967295");
}

#[test]
fn bool_flag_picks_a_token() {
    assert_eq!(bool_flag(true, "active", "off"), "active");
    assert_eq!(bool_flag(false, "active", "off"), "off");
    assert_eq!(bool_flag(true, "1", "0"), "1");
    assert_eq!(bool_flag(false, "1", "0"), "0");
}

#[test]
fn limit_defaults_to_zero() {
    assert_eq!(query_only("abcd").get_limit(), 0);
    assert_eq!(all_fields().get_limit(), 10);
    let mut sc = query_only("abcd");
    sc.limit = Some(3);
    assert_eq!(sc.get_limit(), 3);
}

#[test]
fn service_and_endpoint() {
    assert_eq!(query_only("abcd").get_service(), Services::Scholar);
    assert_eq!(Services::Scholar.get_base_url(), "https://scholar.google.com/scholar?");
    assert_eq!(get_base_url(Services::Scholar), "https://scholar.google.com/scholar?");
    assert!(Url::parse(Services::Scholar.get_base_url()).is_ok());
}

#[test]
fn text_with_separators_stays_one_parameter() {
    assert_eq!(
        query_only("a&b=c").get_url().unwrap(),
        "https://scholar.google.com/scholar?q=a%26b%3Dc"
    );
    for text in ["a&b=c", "a+b%41", "x&scisbd=5", "100% & more = less+", "caf\u{e9} #1 'q' <t>"] {
        let url = Url::parse(&query_only(text).get_url().unwrap()).unwrap();
        let pairs: Vec<(String, String)> = url.query_pairs().into_owned().collect();
        assert_eq!(pairs, vec![(String::from("q"), String::from(text))]);
    }
}

#[test]
fn every_text_value_decodes_to_what_was_given() {
    let mut sc = query_only("q&x=1");
    sc.cite_id = Some(String::from("c&d"));
    sc.cluster_id = Some(String::from("e=f"));
    sc.lang = Some(String::from("g+h"));
    sc.lang_limit = Some(String::from("lang_fr|lang_en%"));
    let text = sc.get_url().unwrap();
    assert_eq!(
        text,
        "https://scholar.google.com/scholar?q=q%26x%3D1&cites=c%26d&cluster=e%3Df&hl=g%2Bh&lr=lang_fr|lang_en%25"
    );
    let url = Url::parse(&text).unwrap();
    let pairs: Vec<(String, String)> = url.query_pairs().into_owned().collect();
    let expected: Vec<(String, String)> = [
        ("q", "q&x=1"),
        ("cites", "c&d"),
        ("cluster", "e=f"),
        ("hl", "g+h"),
        ("lr", "lang_fr|lang_en%"),
    ]
    .iter()
    .map(|(k, v)| (String::from(*k), String::from(*v)))
    .collect();
    assert_eq!(pairs, expected);
}

#[test]
fn error_messages() {
    assert_eq!(
        Error::ConnectionError(String::from("timed out")).message(),
        "Connection error: timed out"
    );
    assert_eq!(Error::ConnectionError(String::new()).message(), "Connection error: ");
    assert_eq!(Error::ParseError.message(), "Parse error");
    assert_eq!(Error::InvalidServiceError.message(), "Invalid URL");
    assert_eq!(Error::RequiredFieldError.message(), "Invalid URL");
    assert_eq!(Error::NotImplementedError.message(), "Not implemented");
    assert_eq!(Error::InvalidResponseError.message(), "Invalid Response");
}
