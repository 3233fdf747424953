//! Tests of request construction: URLs, query pairs, headers and bodies.

use diffbot::{get_api_url_string, prepare_request, Body, Diffbot, Method, API};

fn pair(k: &str, v: &str) -> (String, String) {
    (k.to_string(), v.to_string())
}

#[test]
fn test_call() {
    let client = Diffbot::v3("insert_your_token_here");
    let req = client.prepare_url(&API::Analyze, "http://diffbot.com", &[]);
    assert_eq!(req.method, Method::Get);
    assert_eq!(req.url, "https://api.diffbot.com/v3/analyze");
    assert_eq!(
        req.query,
        vec![pair("token", "insert_your_token_here"), pair("url", "http://diffbot.com")]
    );
    assert_eq!(req.headers, vec![pair("User-Agent", "diffbot/rust")]);
    assert_eq!(req.body, Body::Empty);
}

#[test]
fn test_call_with_options() {
    let client = Diffbot::v3("insert_your_token_here");
    let req = client.prepare_url(&API::Analyze, "http://diffbot.com", &[("fields", "links,meta")]);
    assert_eq!(
        req.query,
        vec![
            pair("token", "insert_your_token_here"),
            pair("url", "http://diffbot.com"),
            pair("fields", "links,meta"),
        ]
    );
}

#[test]
fn test_search() {
    let client = Diffbot::v3("insert_your_token_here");
    let req = client.prepare_search_url("GLOBAL-INDEX", "diffbot", &[]);
    assert_eq!(req.method, Method::Get);
    assert_eq!(req.url, "https://api.diffbot.com/v3/search");
    assert_eq!(
        req.query,
        vec![
            pair("token", "insert_your_token_here"),
            pair("col", "GLOBAL-INDEX"),
            pair("query", "diffbot"),
        ]
    );
}

#[test]
fn test_search_with_options() {
    let client = Diffbot::v3("insert_your_token_here");
    let req =
        client.prepare_search_url("GLOBAL-INDEX", "site:techcrunch.com sortby:date", &[("num", "2")]);
    assert_eq!(
        req.query,
        vec![
            pair("token", "insert_your_token_here"),
            pair("col", "GLOBAL-INDEX"),
            pair("query", "site:techcrunch.com sortby:date"),
            pair("num", "2"),
        ]
    );
    assert_eq!(
        req.full_url(),
        "https://api.diffbot.com/v3/search?token=insert_your_token_here&col=GLOBAL-INDEX\
         &query=site%3Atechcrunch.com+sortby%3Adate&num=2"
    );
}

#[test]
fn test_crawl() {
    let client = Diffbot::v3("insert_your_token_here");
    let req = client.prepare_crawl("crawl", &API::Analyze, &["http://mysite.com"], &[]);
    assert_eq!(req.method, Method::Post);
    assert_eq!(req.url, "https://api.diffbot.com/v3/crawl");
    assert!(req.query.is_empty());
    match &req.body {
        Body::Form(body) => assert_eq!(
            body,
            "name=crawl&token=insert_your_token_here\
             &apiUrl=https%3A%2F%2Fapi.diffbot.com%2Fv3%2Fanalyze\
             &seeds=http%3A%2F%2Fmysite.com&"
        ),
        other => panic!("expected a form body, got {:?}", other),
    }

    let listing = client.prepare_list_crawls();
    assert_eq!(listing.method, Method::Get);
    assert_eq!(listing.url, "https://api.diffbot.com/v3/crawl");
    assert_eq!(listing.query, vec![pair("token", "insert_your_token_here")]);
    assert_eq!(listing.body, Body::Empty);
}

#[test]
fn test_post() {
    let client = Diffbot::v3("insert_your_token_here");
    let html: &[u8] = br#"
<html>
    <head>
        <title>My Website</title>
    </head>
    <body>
        <h1>My Website</h1>
        <p>This is a fake website, yet we will analyze its content.
           Isn't it interesting?</p>
    </body>
</html>"#;
    let req = client.prepare_post_body(&API::Article, "http://my.website.com", html, &[]);
    assert_eq!(req.method, Method::Post);
    assert_eq!(
        req.query,
        vec![pair("token", "insert_your_token_here"), pair("url", "http://my.website.com")]
    );
    assert_eq!(
        req.headers,
        vec![pair("User-Agent", "diffbot/rust"), pair("Content-Type", "text/html")]
    );
    assert_eq!(req.body, Body::Bytes(html.to_vec()));
}

#[test]
fn test_diffbot_struct_and_timeouts() {
    let client = Diffbot::new("insert_your_token_here", 2);
    let mut request = client.prepare_request("http://example.com/", "article", &[]);
    request.timeout(1);
    assert_eq!(
        request.query,
        vec![
            pair("token", "insert_your_token_here"),
            pair("url", "http://example.com/"),
            pair("timeout", "1"),
        ]
    );
    assert_eq!(request.url, "https://api.diffbot.com/v2/article");

    let simulated = br#"{"error": "Request timed out. The \"timeout\" query string option can be used to modify the timeout (in milliseconds). For example, \"...?timeout=5000&url=...\"", "errorCode": 500}"#;
    let timeout_message = "Request timed out. The \"timeout\" query string option can be used \
                           to modify the timeout (in milliseconds). For example, \
                           \"...?timeout=5000&url=...\"";
    assert_eq!(
        diffbot::interpret_response(simulated),
        Err(diffbot::Error::Api(500, timeout_message.to_string()))
    );
}

#[test]
fn option_order_is_kept() {
    let client = Diffbot::v2("t");
    let req = client.prepare_url(
        &API::Article,
        "http://example.com/",
        &[("paging", "false"), ("fields", "meta"), ("paging", "true")],
    );
    assert_eq!(
        req.query,
        vec![
            pair("token", "t"),
            pair("url", "http://example.com/"),
            pair("paging", "false"),
            pair("fields", "meta"),
            pair("paging", "true"),
        ]
    );
}

#[test]
fn custom_endpoint_name_passes_through() {
    let api = API::Custom("frontpage".to_string());
    assert_eq!(api.get_str(), "frontpage");
    assert_eq!(get_api_url_string(api.get_str(), 2), "https://api.diffbot.com/v2/frontpage");
    let client = Diffbot::v2("t");
    let req = client.prepare_url(&api, "http://example.com/", &[]);
    assert_eq!(req.url, "https://api.diffbot.com/v2/frontpage");
}

#[test]
fn api_url_strings() {
    assert_eq!(get_api_url_string("analyze", 1), "https://api.diffbot.com/v1/analyze");
    assert_eq!(get_api_url_string("article", 2), "https://api.diffbot.com/v2/article");
    assert_eq!(get_api_url_string("search", 3), "https://api.diffbot.com/v3/search");
    assert_eq!(get_api_url_string("video", 255), "https://api.diffbot.com/v255/video");
    assert_eq!(API::Product.get_str(), "product");
    assert_eq!(API::Discussion.get_str(), "discussion");
    assert_eq!(API::Image.get_str(), "image");
    assert_eq!(API::Video.get_str(), "video");
}

#[test]
fn crawl_seeds_are_joined_then_encoded() {
    let client = Diffbot::v3("t");
    let req = client.prepare_crawl("n", &API::Analyze, &["http://a.com", "http://b.com"], &[]);
    match &req.body {
        Body::Form(body) => {
            assert!(body.contains("seeds=http%3A%2F%2Fa.com+http%3A%2F%2Fb.com"));
            assert!(body.contains("name=n"));
            assert!(body.contains("token=t"));
        },
        other => panic!("expected a form body, got {:?}", other),
    }
}

#[test]
fn bulk_body_holds_fixed_fields_then_options() {
    let client = Diffbot::v3("t");
    let req = client.prepare_bulk(
        "my_bulk_job",
        &API::Analyze,
        &["http://my.first.page.com", "https://my.second.page.com"],
        &[("repeat", "7.0"), ("notifyEmail", "me@example.com")],
    );
    assert_eq!(req.url, "https://api.diffbot.com/v3/bulk");
    match &req.body {
        Body::Form(body) => assert_eq!(
            body,
            "name=my_bulk_job&token=t&apiUrl=https%3A%2F%2Fapi.diffbot.com%2Fv3%2Fanalyze\
             &urls=http%3A%2F%2Fmy.first.page.com+https%3A%2F%2Fmy.second.page.com\
             &repeat=7.0&notifyEmail=me%40example.com"
        ),
        other => panic!("expected a form body, got {:?}", other),
    }
}

#[test]
fn job_retrieval_body_keeps_trailing_separator() {
    let client = Diffbot::v3("t");
    let crawl = client.prepare_get_crawl("job");
    match &crawl.body {
        Body::Form(body) => assert_eq!(body, "token=t&name=job&format=json&"),
        other => panic!("expected a form body, got {:?}", other),
    }
    let bulk = client.prepare_get_bulk("job");
    assert_eq!(bulk.url, "https://api.diffbot.com/v3/bulk");
    match &bulk.body {
        Body::Form(body) => assert_eq!(body, "token=t&name=job&format=json&"),
        other => panic!("expected a form body, got {:?}", other),
    }
    assert_eq!(crawl.full_url(), "https://api.diffbot.com/v3/crawl");
}

#[test]
fn header_setters_replace_their_key() {
    let mut req = prepare_request("http://example.com/", "t", "article", &[], 2);
    req.user_agent("first/1.0");
    req.referer("http://referer.example.com/");
    req.cookie("a=b");
    req.user_agent("second/2.0");
    assert_eq!(
        req.headers,
        vec![
            pair("User-Agent", "diffbot/rust"),
            pair("X-Forwarded-User-Agent", "second/2.0"),
            pair("X-Forwarded-Referer", "http://referer.example.com/"),
            pair("X-Forwarded-Cookie", "a=b"),
        ]
    );
}

#[test]
fn timeout_pairs_accumulate() {
    let mut req = prepare_request("http://example.com/", "t", "article", &[], 2);
    req.timeout(1);
    req.timeout(5000);
    req.timeout(18446744073709551615);
    assert_eq!(req.query[2], pair("timeout", "1"));
    assert_eq!(req.query[3], pair("timeout", "5000"));
    assert_eq!(req.query[4], pair("timeout", "18446744073709551615"));
}

#[test]
fn prepared_request_without_fields_has_no_fields_pair() {
    let req = prepare_request("http://example.com/", "t", "frontpage", &[], 2);
    assert_eq!(req.query, vec![pair("token", "t"), pair("url", "http://example.com/")]);
    assert_eq!(req.url, "https://api.diffbot.com/v2/frontpage");
}

#[test]
fn post_body_bytes_are_unchanged() {
    let client = Diffbot::v1("t");
    let bytes: Vec<u8> = vec![0u8, 255u8, 104u8, 105u8, 10u8, 0u8];
    let req = client.prepare_post_body(&API::Analyze, "http://example.com/", &bytes, &[]);
    assert_eq!(req.method, Method::Post);
    assert_eq!(req.body, Body::Bytes(bytes));
}
