//! The client: a service token and an API version, and the construction of
//! one request description per endpoint operation.
//!
//! GET-style calls (the analyze family and search) carry `token`, the
//! endpoint's mandatory identifier and the caller's options as query pairs.
//! Crawl and bulk job operations POST a form-encoded body made of two
//! independently encoded segments joined by `&`: the fixed fields, then the
//! caller's options.  Key collisions between the two segments are kept, not
//! deduplicated: the service sees both occurrences.

use crate::request::{
    form_encoded, pairs_view, Body, BodySpec, Method, Request,
};
use crate::text::{join_strs, spec_dec, spec_join, strs_view, u64_to_string};
use vstd::prelude::*;

verus! {

/// One of the service's endpoints.
///
/// The `Custom` variant passes its name through verbatim, for endpoints not
/// yet enumerated here.
#[derive(Debug, PartialEq, Eq)]
pub enum API {
    /// Automatic detection of the page type.
    Analyze,
    /// News articles.
    Article,
    /// Products in online shops.
    Product,
    /// Forums.
    Discussion,
    /// Image-central pages.
    Image,
    /// Video pages.
    Video,
    /// A custom endpoint with the given name.
    Custom(String),
}

impl API {
    /// The URL path segment of this endpoint.
    pub open spec fn spec_path(&self) -> Seq<char> {
        match self {
            API::Analyze => "analyze"@,
            API::Article => "article"@,
            API::Product => "product"@,
            API::Discussion => "discussion"@,
            API::Image => "image"@,
            API::Video => "video"@,
            API::Custom(name) => name@,
        }
    }

    /// Returns the URL path segment of this endpoint.
    pub fn get_str(&self) -> (r: &str)
        ensures
            r@ == self.spec_path(),
    {
        match self {
            API::Analyze => "analyze",
            API::Article => "article",
            API::Product => "product",
            API::Discussion => "discussion",
            API::Image => "image",
            API::Video => "video",
            API::Custom(name) => name.as_str(),
        }
    }
}

/// The base URL of an endpoint: scheme, host, version and path segment.
pub open spec fn spec_api_url(api: Seq<char>, version: u8) -> Seq<char> {
    "https://api.diffbot.com/v"@ + spec_dec(version as nat) + "/"@ + api
}

/// Renders the base URL for the endpoint path segment `api` under the given
/// version.
pub fn get_api_url_string(api: &str, version: u8) -> (r: String)
    ensures
        r@ == spec_api_url(api@, version),
{
    let mut out = String::from_str("https://api.diffbot.com/v");
    let ver = u64_to_string(version as u64);
    out.append(ver.as_str());
    out.append("/");
    out.append(api);
    proof {
        assert(out@ =~= spec_api_url(api@, version));
    }
    out
}

/// The views of a sequence of option pairs.
pub open spec fn opts_view(opts: Seq<(&str, &str)>) -> Seq<(Seq<char>, Seq<char>)> {
    opts.map_values(|p: (&str, &str)| (p.0@, p.1@))
}

/// Appends every option pair, in the caller's order.
#[verifier::loop_isolation(false)]
fn push_pairs(query: &mut Vec<(String, String)>, options: &[(&str, &str)])
    ensures
        pairs_view(final(query)@) == pairs_view(old(query)@) + opts_view(options@),
{
    let mut i: usize = 0;
    while i < options.len()
        invariant
            0 <= i <= options@.len(),
            pairs_view(query@) == pairs_view(old(query)@) + opts_view(options@).take(i as int),
        decreases options@.len() - i,
    {
        let ghost prev = pairs_view(query@);
        let pair: (&str, &str) = options[i];
        query.push((pair.0.to_owned(), pair.1.to_owned()));
        proof {
            assert(pairs_view(query@) =~= prev.push((pair.0@, pair.1@)));
            assert(pairs_view(old(query)@) + opts_view(options@).take(i + 1) =~= prev.push(
                (pair.0@, pair.1@),
            ));
        }
        i = i + 1;
    }
    proof {
        assert(opts_view(options@).take(options@.len() as int) =~= opts_view(options@));
    }
}

/// The query of a GET call: `token`, then the target `url`, then the
/// caller's options in the caller's order.
pub open spec fn spec_call_query(
    token: Seq<char>,
    target: Seq<char>,
    options: Seq<(Seq<char>, Seq<char>)>,
) -> Seq<(Seq<char>, Seq<char>)> {
    seq![("token"@, token), ("url"@, target)] + options
}

/// The query of a search call: `token`, the collection, the query text, then
/// the caller's options in the caller's order.
pub open spec fn spec_search_query(
    token: Seq<char>,
    col: Seq<char>,
    query: Seq<char>,
    options: Seq<(Seq<char>, Seq<char>)>,
) -> Seq<(Seq<char>, Seq<char>)> {
    seq![("token"@, token), ("col"@, col), ("query"@, query)] + options
}

/// The fixed form fields of a crawl or bulk submission: the job's name, the
/// token, the fully resolved sub-endpoint URL, and the targets joined by
/// single spaces under the given field name.
pub open spec fn spec_job_fields(
    name: Seq<char>,
    token: Seq<char>,
    api_url: Seq<char>,
    targets_key: Seq<char>,
    targets: Seq<Seq<char>>,
) -> Seq<(Seq<char>, Seq<char>)> {
    seq![("name"@, name), ("token"@, token), ("apiUrl"@, api_url), (targets_key, spec_join(targets, " "@))]
}

/// The fixed form fields of a crawl or bulk retrieval: the token, the job's
/// name, and `format=json`.
pub open spec fn spec_job_query_fields(token: Seq<char>, name: Seq<char>) -> Seq<
    (Seq<char>, Seq<char>),
> {
    seq![("token"@, token), ("name"@, name), ("format"@, "json"@)]
}

/// The form body of a crawl or bulk operation: the fixed fields and the
/// caller's options, each segment encoded on its own, joined by one `&`.
pub open spec fn spec_job_body(
    fields: Seq<(Seq<char>, Seq<char>)>,
    options: Seq<(Seq<char>, Seq<char>)>,
) -> Seq<char> {
    form_encoded(fields) + "&"@ + form_encoded(options)
}

/// How many of the pairs carry the given key.
pub open spec fn count_key(pairs: Seq<(Seq<char>, Seq<char>)>, key: Seq<char>) -> nat
    decreases pairs.len(),
{
    if pairs.len() == 0 {
        0
    } else {
        (if pairs[0].0 == key {
            1nat
        } else {
            0nat
        }) + count_key(pairs.drop_first(), key)
    }
}

proof fn lemma_count_key_append(
    a: Seq<(Seq<char>, Seq<char>)>,
    b: Seq<(Seq<char>, Seq<char>)>,
    key: Seq<char>,
)
    ensures
        count_key(a + b, key) == count_key(a, key) + count_key(b, key),
    decreases a.len(),
{
    if a.len() == 0 {
        assert(a + b =~= b);
    } else {
        lemma_count_key_append(a.drop_first(), b, key);
        assert((a + b).drop_first() =~= a.drop_first() + b);
        assert((a + b)[0] == a[0]);
    }
}

proof fn lemma_count_key_zero(pairs: Seq<(Seq<char>, Seq<char>)>, key: Seq<char>)
    requires
        forall|j: int| 0 <= j < pairs.len() ==> pairs[j].0 != key,
    ensures
        count_key(pairs, key) == 0,
    decreases pairs.len(),
{
    if pairs.len() > 0 {
        lemma_count_key_zero(pairs.drop_first(), key);
    }
}

/// Order-preservation law of a prepared GET call: when no option reuses a
/// reserved key, the query holds `token` and the mandatory identifier `url`
/// exactly once each, followed by every option pair in the caller's order.
pub proof fn lemma_call_query_well_formed(
    token: Seq<char>,
    target: Seq<char>,
    options: Seq<(Seq<char>, Seq<char>)>,
)
    requires
        forall|i: int| 0 <= i < options.len() ==> options[i].0 != "token"@,
        forall|i: int| 0 <= i < options.len() ==> options[i].0 != "url"@,
    ensures
        count_key(spec_call_query(token, target, options), "token"@) == 1,
        count_key(spec_call_query(token, target, options), "url"@) == 1,
        spec_call_query(token, target, options).len() == 2 + options.len(),
        forall|i: int| 0 <= i < options.len() ==> spec_call_query(token, target, options)[2 + i]
            == options[i],
{
    reveal_strlit("token");
    reveal_strlit("url");
    assert("token"@.len() == 5);
    assert("url"@.len() == 3);
    assert("token"@ != "url"@);
    let prefix = seq![("token"@, token), ("url"@, target)];
    lemma_count_key_append(prefix, options, "token"@);
    lemma_count_key_append(prefix, options, "url"@);
    lemma_count_key_zero(options, "token"@);
    lemma_count_key_zero(options, "url"@);
    assert(prefix.drop_first() =~= seq![("url"@, target)]);
    assert(seq![("url"@, target)].drop_first() =~= Seq::<(Seq<char>, Seq<char>)>::empty());
    assert(count_key(Seq::<(Seq<char>, Seq<char>)>::empty(), "token"@) == 0);
    assert(count_key(Seq::<(Seq<char>, Seq<char>)>::empty(), "url"@) == 0);
    assert(count_key(seq![("url"@, target)], "token"@) == 0);
    assert(count_key(seq![("url"@, target)], "url"@) == 1);
    assert(count_key(prefix, "token"@) == 1);
    assert(count_key(prefix, "url"@) == 1);
}

/// Order-preservation law of a prepared search: when no option reuses a
/// reserved key, the query holds `token`, `col` and `query` exactly once
/// each, followed by every option pair in the caller's order.
pub proof fn lemma_search_query_well_formed(
    token: Seq<char>,
    col: Seq<char>,
    query: Seq<char>,
    options: Seq<(Seq<char>, Seq<char>)>,
)
    requires
        forall|i: int| 0 <= i < options.len() ==> options[i].0 != "token"@,
        forall|i: int| 0 <= i < options.len() ==> options[i].0 != "col"@,
        forall|i: int| 0 <= i < options.len() ==> options[i].0 != "query"@,
    ensures
        count_key(spec_search_query(token, col, query, options), "token"@) == 1,
        count_key(spec_search_query(token, col, query, options), "col"@) == 1,
        count_key(spec_search_query(token, col, query, options), "query"@) == 1,
        spec_search_query(token, col, query, options).len() == 3 + options.len(),
        forall|i: int| 0 <= i < options.len() ==> spec_search_query(token, col, query, options)[3
            + i] == options[i],
{
    reveal_strlit("token");
    reveal_strlit("col");
    reveal_strlit("query");
    assert("token"@.len() == 5);
    assert("col"@.len() == 3);
    assert("query"@.len() == 5);
    assert("token"@[0] == 't');
    assert("query"@[0] == 'q');
    assert("token"@ != "col"@);
    assert("token"@ != "query"@);
    assert("col"@ != "query"@);
    let prefix = seq![("token"@, token), ("col"@, col), ("query"@, query)];
    lemma_count_key_append(prefix, options, "token"@);
    lemma_count_key_append(prefix, options, "col"@);
    lemma_count_key_append(prefix, options, "query"@);
    lemma_count_key_zero(options, "token"@);
    lemma_count_key_zero(options, "col"@);
    lemma_count_key_zero(options, "query"@);
    let tail2 = seq![("col"@, col), ("query"@, query)];
    let tail1 = seq![("query"@, query)];
    assert(prefix.drop_first() =~= tail2);
    assert(tail2.drop_first() =~= tail1);
    assert(tail1.drop_first() =~= Seq::<(Seq<char>, Seq<char>)>::empty());
    assert(count_key(Seq::<(Seq<char>, Seq<char>)>::empty(), "token"@) == 0);
    assert(count_key(Seq::<(Seq<char>, Seq<char>)>::empty(), "col"@) == 0);
    assert(count_key(Seq::<(Seq<char>, Seq<char>)>::empty(), "query"@) == 0);
    assert(count_key(tail1, "token"@) == 0);
    assert(count_key(tail1, "col"@) == 0);
    assert(count_key(tail1, "query"@) == 1);
    assert(count_key(tail2, "token"@) == 0);
    assert(count_key(tail2, "col"@) == 1);
    assert(count_key(tail2, "query"@) == 1);
    assert(count_key(prefix, "token"@) == 1);
    assert(count_key(prefix, "col"@) == 1);
    assert(count_key(prefix, "query"@) == 1);
}

/// Order-preservation law of a job submission's fixed fields: they hold
/// `token` and the targets field exactly once each.
pub proof fn lemma_job_fields_well_formed(
    name: Seq<char>,
    token: Seq<char>,
    api_url: Seq<char>,
    targets_key: Seq<char>,
    targets: Seq<Seq<char>>,
)
    requires
        targets_key != "name"@,
        targets_key != "token"@,
        targets_key != "apiUrl"@,
    ensures
        count_key(spec_job_fields(name, token, api_url, targets_key, targets), "token"@) == 1,
        count_key(spec_job_fields(name, token, api_url, targets_key, targets), targets_key) == 1,
{
    reveal_strlit("name");
    reveal_strlit("token");
    reveal_strlit("apiUrl");
    assert("name"@.len() == 4);
    assert("token"@.len() == 5);
    assert("apiUrl"@.len() == 6);
    assert("name"@ != "token"@);
    assert("apiUrl"@ != "token"@);
    let fields = spec_job_fields(name, token, api_url, targets_key, targets);
    let joined = spec_join(targets, " "@);
    let tail3 = seq![("token"@, token), ("apiUrl"@, api_url), (targets_key, joined)];
    let tail2 = seq![("apiUrl"@, api_url), (targets_key, joined)];
    let tail1 = seq![(targets_key, joined)];
    assert(fields.drop_first() =~= tail3);
    assert(tail3.drop_first() =~= tail2);
    assert(tail2.drop_first() =~= tail1);
    assert(tail1.drop_first() =~= Seq::<(Seq<char>, Seq<char>)>::empty());
    assert(count_key(Seq::<(Seq<char>, Seq<char>)>::empty(), "token"@) == 0);
    assert(count_key(Seq::<(Seq<char>, Seq<char>)>::empty(), targets_key) == 0);
    assert(count_key(tail1, "token"@) == 0);
    assert(count_key(tail1, targets_key) == 1);
    assert(count_key(tail2, "token"@) == 0);
    assert(count_key(tail2, targets_key) == 1);
    assert(count_key(tail3, "token"@) == 1);
    assert(count_key(tail3, targets_key) == 1);
    assert(count_key(fields, "token"@) == 1);
    assert(count_key(fields, targets_key) == 1);
}

/// The client: a service token and an API version, immutable after
/// construction.
pub struct Diffbot {
    // The caller's credential, sent as the `token` parameter of every
    // request.
    token: String,
    // The API version number.
    version: u8,
}

impl Diffbot {
    /// The stored token: the credential sent as the `token` parameter of
    /// every request.
    pub closed spec fn spec_token(&self) -> Seq<char> {
        self.token@
    }

    /// The stored API version number.
    pub closed spec fn spec_version(&self) -> u8 {
        self.version
    }

    /// Returns a client that uses the given token and version.
    ///
    /// Valid versions: `1`, `2`, `3`.
    pub fn new(token: &str, version: u8) -> (r: Self)
        ensures
            r.spec_token() == token@,
            r.spec_version() == version,
    {
        Diffbot { token: token.to_owned(), version }
    }

    /// Returns a version 1 client.
    pub fn v1(token: &str) -> (r: Self)
        ensures
            r.spec_token() == token@,
            r.spec_version() == 1,
    {
        Diffbot::new(token, 1)
    }

    /// Returns a version 2 client.
    pub fn v2(token: &str) -> (r: Self)
        ensures
            r.spec_token() == token@,
            r.spec_version() == 2,
    {
        Diffbot::new(token, 2)
    }

    /// Returns a version 3 client (recommended).
    pub fn v3(token: &str) -> (r: Self)
        ensures
            r.spec_token() == token@,
            r.spec_version() == 3,
    {
        Diffbot::new(token, 3)
    }

    /// Builds the GET request that runs `target_url` through the endpoint
    /// `api`, with each option pair appended to the query in the caller's
    /// order.
    pub fn prepare_url(&self, api: &API, target_url: &str, options: &[(&str, &str)]) -> (r:
        Request)
        ensures
            r@.method == Method::Get,
            r@.url == spec_api_url(api.spec_path(), self.spec_version()),
            r@.query == spec_call_query(self.spec_token(), target_url@, opts_view(options@)),
            r@.headers == seq![("User-Agent"@, "diffbot/rust"@)],
            r@.body == BodySpec::Empty,
    {
        let mut query: Vec<(String, String)> = Vec::new();
        query.push(("token".to_owned(), self.token.clone()));
        query.push(("url".to_owned(), target_url.to_owned()));
        proof {
            assert(pairs_view(query@) =~= seq![("token"@, self.token@), ("url"@, target_url@)]);
        }
        push_pairs(&mut query, options);
        let r = Request {
            method: Method::Get,
            url: get_api_url_string(api.get_str(), self.version),
            query,
            headers: default_headers(),
            body: Body::Empty,
        };
        proof {
            assert(r@.query =~= spec_call_query(self.spec_token(), target_url@, opts_view(options@)));
        }
        r
    }

    /// Builds the GET request that searches the collection `col` for `query`,
    /// with each option pair appended in the caller's order.
    ///
    /// The collection `GLOBAL-INDEX` is the global search collection.
    pub fn prepare_search_url(&self, col: &str, query: &str, options: &[(&str, &str)]) -> (r:
        Request)
        ensures
            r@.method == Method::Get,
            r@.url == spec_api_url("search"@, self.spec_version()),
            r@.query == spec_search_query(self.spec_token(), col@, query@, opts_view(options@)),
            r@.headers == seq![("User-Agent"@, "diffbot/rust"@)],
            r@.body == BodySpec::Empty,
    {
        let mut pairs: Vec<(String, String)> = Vec::new();
        pairs.push(("token".to_owned(), self.token.clone()));
        pairs.push(("col".to_owned(), col.to_owned()));
        pairs.push(("query".to_owned(), query.to_owned()));
        proof {
            assert(pairs_view(pairs@) =~= seq![
                ("token"@, self.token@),
                ("col"@, col@),
                ("query"@, query@),
            ]);
        }
        push_pairs(&mut pairs, options);
        let r = Request {
            method: Method::Get,
            url: get_api_url_string("search", self.version),
            query: pairs,
            headers: default_headers(),
            body: Body::Empty,
        };
        proof {
            assert(r@.query =~= spec_search_query(self.spec_token(), col@, query@, opts_view(options@)));
        }
        r
    }

    /// Builds the raw-body submission: the same URL and query as the GET
    /// call, but method POST, content type `text/html`, and the given bytes,
    /// unchanged, as the body.
    pub fn prepare_post_body(
        &self,
        api: &API,
        target_url: &str,
        body: &[u8],
        options: &[(&str, &str)],
    ) -> (r: Request)
        ensures
            r@.method == Method::Post,
            r@.url == spec_api_url(api.spec_path(), self.spec_version()),
            r@.query == spec_call_query(self.spec_token(), target_url@, opts_view(options@)),
            r@.headers == seq![
                ("User-Agent"@, "diffbot/rust"@),
                ("Content-Type"@, "text/html"@),
            ],
            r@.body == BodySpec::Bytes(body@),
    {
        let mut r = self.prepare_url(api, target_url, options);
        r.post_body(body);
        proof {
            reveal_strlit("User-Agent");
            reveal_strlit("Content-Type");
            assert("User-Agent"@.len() == 10 && "Content-Type"@.len() == 12);
            let ua = seq![("User-Agent"@, "diffbot/rust"@)];
            crate::request::lemma_set_pair_missing(ua, "Content-Type"@, "text/html"@);
            assert(r@.headers =~= seq![
                ("User-Agent"@, "diffbot/rust"@),
                ("Content-Type"@, "text/html"@),
            ]);
        }
        r
    }

    /// Builds the GET request that lists the existing crawl jobs.
    pub fn prepare_list_crawls(&self) -> (r: Request)
        ensures
            r@.method == Method::Get,
            r@.url == spec_api_url("crawl"@, self.spec_version()),
            r@.query == seq![("token"@, self.spec_token())],
            r@.headers == seq![("User-Agent"@, "diffbot/rust"@)],
            r@.body == BodySpec::Empty,
    {
        let mut query: Vec<(String, String)> = Vec::new();
        query.push(("token".to_owned(), self.token.clone()));
        let r = Request {
            method: Method::Get,
            url: get_api_url_string("crawl", self.version),
            query,
            headers: default_headers(),
            body: Body::Empty,
        };
        proof {
            assert(r@.query =~= seq![("token"@, self.token@)]);
        }
        r
    }

    /// What crawl and bulk operations share: a POST of a form-encoded body to
    /// the fixed job path, the fixed fields and the caller's options encoded
    /// as two independent segments joined by `&`.
    fn crawl_bulk_request(
        &self,
        api_path: &str,
        fields: Vec<(String, String)>,
        options: &[(&str, &str)],
    ) -> (r: Request)
        ensures
            r@.method == Method::Post,
            r@.url == spec_api_url(api_path@, self.spec_version()),
            r@.query == Seq::<(Seq<char>, Seq<char>)>::empty(),
            r@.headers == seq![
                ("User-Agent"@, "diffbot/rust"@),
                ("Content-Type"@, "application/x-www-form-urlencoded"@),
            ],
            r@.body == BodySpec::Form(spec_job_body(pairs_view(fields@), opts_view(options@))),
            opts_view(options@).len() == 0 ==> r@.body == BodySpec::Form(
                form_encoded(pairs_view(fields@)) + "&"@,
            ),
    {
        let owned = own_pairs(options);
        let mut body = crate::request::form_urlencode(fields.as_slice());
        body.append("&");
        let extra = crate::request::form_urlencode(owned.as_slice());
        body.append(extra.as_str());
        proof {
            if opts_view(options@).len() == 0 {
                assert(body@ =~= form_encoded(pairs_view(fields@)) + "&"@);
            }
        }
        let mut headers = default_headers();
        let ghost bare = headers@;
        headers.push(("Content-Type".to_owned(), "application/x-www-form-urlencoded".to_owned()));
        proof {
            assert(body@ =~= spec_job_body(pairs_view(fields@), opts_view(options@)));
            crate::request::lemma_pairs_view_push(bare, headers@.last());
            assert(headers@ =~= bare.push(headers@.last()));
            assert(pairs_view(headers@) =~= seq![
                ("User-Agent"@, "diffbot/rust"@),
                ("Content-Type"@, "application/x-www-form-urlencoded"@),
            ]);
        }
        let r = Request {
            method: Method::Post,
            url: get_api_url_string(api_path, self.version),
            query: Vec::new(),
            headers,
            body: Body::Form(body),
        };
        proof {
            assert(r@.query =~= Seq::<(Seq<char>, Seq<char>)>::empty());
        }
        r
    }

    /// Builds the POST request that starts the bulk job `name` on the given
    /// URL list, running each through the endpoint `api`.
    pub fn prepare_bulk(&self, name: &str, api: &API, urls: &[&str], options: &[(&str, &str)])
        -> (r: Request)
        ensures
            r@.method == Method::Post,
            r@.url == spec_api_url("bulk"@, self.spec_version()),
            r@.query == Seq::<(Seq<char>, Seq<char>)>::empty(),
            r@.headers == seq![
                ("User-Agent"@, "diffbot/rust"@),
                ("Content-Type"@, "application/x-www-form-urlencoded"@),
            ],
            r@.body == BodySpec::Form(
                spec_job_body(
                    spec_job_fields(
                        name@,
                        self.spec_token(),
                        spec_api_url(api.spec_path(), self.spec_version()),
                        "urls"@,
                        strs_view(urls@),
                    ),
                    opts_view(options@),
                ),
            ),
    {
        let fields = self.job_fields(name, api, "urls", urls);
        self.crawl_bulk_request("bulk", fields, options)
    }

    /// Builds the POST request that retrieves the result of the bulk job
    /// `name`.
    pub fn prepare_get_bulk(&self, name: &str) -> (r: Request)
        ensures
            r@.method == Method::Post,
            r@.url == spec_api_url("bulk"@, self.spec_version()),
            r@.query == Seq::<(Seq<char>, Seq<char>)>::empty(),
            r@.headers == seq![
                ("User-Agent"@, "diffbot/rust"@),
                ("Content-Type"@, "application/x-www-form-urlencoded"@),
            ],
            r@.body == BodySpec::Form(
                spec_job_body(spec_job_query_fields(self.spec_token(), name@), Seq::empty()),
            ),
            r@.body == BodySpec::Form(
                form_encoded(spec_job_query_fields(self.spec_token(), name@)) + "&"@,
            ),
    {
        let fields = self.job_query_fields(name);
        let no_options: Vec<(&str, &str)> = Vec::new();
        let r = self.crawl_bulk_request("bulk", fields, no_options.as_slice());
        proof {
            assert(opts_view(no_options@) =~= Seq::<(Seq<char>, Seq<char>)>::empty());
        }
        r
    }

    /// Builds the POST request that starts the crawl job `name` on the given
    /// seed list, running each crawled page through the endpoint `api`.
    pub fn prepare_crawl(&self, name: &str, api: &API, seeds: &[&str], options: &[(&str, &str)])
        -> (r: Request)
        ensures
            r@.method == Method::Post,
            r@.url == spec_api_url("crawl"@, self.spec_version()),
            r@.query == Seq::<(Seq<char>, Seq<char>)>::empty(),
            r@.headers == seq![
                ("User-Agent"@, "diffbot/rust"@),
                ("Content-Type"@, "application/x-www-form-urlencoded"@),
            ],
            r@.body == BodySpec::Form(
                spec_job_body(
                    spec_job_fields(
                        name@,
                        self.spec_token(),
                        spec_api_url(api.spec_path(), self.spec_version()),
                        "seeds"@,
                        strs_view(seeds@),
                    ),
                    opts_view(options@),
                ),
            ),
    {
        let fields = self.job_fields(name, api, "seeds", seeds);
        self.crawl_bulk_request("crawl", fields, options)
    }

    /// Builds the POST request that retrieves the result of the crawl job
    /// `name`.
    pub fn prepare_get_crawl(&self, name: &str) -> (r: Request)
        ensures
            r@.method == Method::Post,
            r@.url == spec_api_url("crawl"@, self.spec_version()),
            r@.query == Seq::<(Seq<char>, Seq<char>)>::empty(),
            r@.headers == seq![
                ("User-Agent"@, "diffbot/rust"@),
                ("Content-Type"@, "application/x-www-form-urlencoded"@),
            ],
            r@.body == BodySpec::Form(
                spec_job_body(spec_job_query_fields(self.spec_token(), name@), Seq::empty()),
            ),
            r@.body == BodySpec::Form(
                form_encoded(spec_job_query_fields(self.spec_token(), name@)) + "&"@,
            ),
    {
        let fields = self.job_query_fields(name);
        let no_options: Vec<(&str, &str)> = Vec::new();
        let r = self.crawl_bulk_request("crawl", fields, no_options.as_slice());
        proof {
            assert(opts_view(no_options@) =~= Seq::<(Seq<char>, Seq<char>)>::empty());
        }
        r
    }

    /// Builds the fixed fields of a job submission.
    fn job_fields(&self, name: &str, api: &API, targets_key: &str, targets: &[&str]) -> (r: Vec<
        (String, String),
    >)
        ensures
            pairs_view(r@) == spec_job_fields(
                name@,
                self.token@,
                spec_api_url(api.spec_path(), self.spec_version()),
                targets_key@,
                strs_view(targets@),
            ),
    {
        let api_url = get_api_url_string(api.get_str(), self.version);
        let joined = join_strs(targets, " ");
        let mut fields: Vec<(String, String)> = Vec::new();
        fields.push(("name".to_owned(), name.to_owned()));
        fields.push(("token".to_owned(), self.token.clone()));
        fields.push(("apiUrl".to_owned(), api_url));
        fields.push((targets_key.to_owned(), joined));
        proof {
            assert(pairs_view(fields@) =~= spec_job_fields(
                name@,
                self.token@,
                spec_api_url(api.spec_path(), self.spec_version()),
                targets_key@,
                strs_view(targets@),
            ));
        }
        fields
    }

    /// Builds the fixed fields of a job retrieval.
    fn job_query_fields(&self, name: &str) -> (r: Vec<(String, String)>)
        ensures
            pairs_view(r@) == spec_job_query_fields(self.spec_token(), name@),
    {
        let mut fields: Vec<(String, String)> = Vec::new();
        fields.push(("token".to_owned(), self.token.clone()));
        fields.push(("name".to_owned(), name.to_owned()));
        fields.push(("format".to_owned(), "json".to_owned()));
        proof {
            assert(pairs_view(fields@) =~= spec_job_query_fields(self.spec_token(), name@));
        }
        fields
    }

    /// Builds the GET request of the free `prepare_request`, with the
    /// client's stored token and version.
    pub fn prepare_request(&self, url: &str, api: &str, fields: &[&str]) -> (r: Request)
        ensures
            r@.method == Method::Get,
            r@.url == spec_api_url(api@, self.spec_version()),
            r@.query == spec_fields_query(self.spec_token(), url@, strs_view(fields@)),
            r@.headers == seq![("User-Agent"@, "diffbot/rust"@)],
            r@.body == BodySpec::Empty,
    {
        prepare_request(url, self.token.as_str(), api, fields, self.version)
    }
}

/// The headers every request starts from.
fn default_headers() -> (r: Vec<(String, String)>)
    ensures
        pairs_view(r@) == seq![("User-Agent"@, "diffbot/rust"@)],
{
    let mut headers: Vec<(String, String)> = Vec::new();
    headers.push(("User-Agent".to_owned(), "diffbot/rust".to_owned()));
    proof {
        assert(pairs_view(headers@) =~= seq![("User-Agent"@, "diffbot/rust"@)]);
    }
    headers
}

/// Owned copies of the option pairs.
#[verifier::loop_isolation(false)]
fn own_pairs(options: &[(&str, &str)]) -> (r: Vec<(String, String)>)
    ensures
        pairs_view(r@) == opts_view(options@),
{
    let mut owned: Vec<(String, String)> = Vec::new();
    push_pairs(&mut owned, options);
    proof {
        assert(pairs_view(owned@) =~= opts_view(options@));
    }
    owned
}

/// The query of a prepared request: `token`, the target `url`, then - when
/// any field was named - the fields joined by commas under `fields`.
pub open spec fn spec_fields_query(
    token: Seq<char>,
    target: Seq<char>,
    fields: Seq<Seq<char>>,
) -> Seq<(Seq<char>, Seq<char>)> {
    if fields.len() == 0 {
        seq![("token"@, token), ("url"@, target)]
    } else {
        seq![("token"@, token), ("url"@, target), ("fields"@, spec_join(fields, ","@))]
    }
}

/// Prepares, but does not send, the GET request that runs `url` through the
/// endpoint named `api`.
///
/// `fields` names what the call is to return, as the service defines it
/// (values like `*`, `meta`, `images(url)`); an empty list leaves the
/// parameter out.  `token` is the developer's token and `version` the API
/// version number.
pub fn prepare_request(url: &str, token: &str, api: &str, fields: &[&str], version: u8) -> (r:
    Request)
    ensures
        r@.method == Method::Get,
        r@.url == spec_api_url(api@, version),
        r@.query == spec_fields_query(token@, url@, strs_view(fields@)),
        r@.headers == seq![("User-Agent"@, "diffbot/rust"@)],
        r@.body == BodySpec::Empty,
{
    let mut query: Vec<(String, String)> = Vec::new();
    query.push(("token".to_owned(), token.to_owned()));
    query.push(("url".to_owned(), url.to_owned()));
    if fields.len() > 0 {
        query.push(("fields".to_owned(), join_strs(fields, ",")));
    }
    let r = Request {
        method: Method::Get,
        url: get_api_url_string(api, version),
        query,
        headers: default_headers(),
        body: Body::Empty,
    };
    proof {
        assert(r@.query =~= spec_fields_query(token@, url@, strs_view(fields@)));
    }
    r
}

} // verus!
