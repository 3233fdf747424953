//! The description of one outbound request: method, URL, query pairs, header
//! pairs and body.  Every endpoint operation of the client produces such a
//! description; sending it over the network is the caller's business.

use crate::text::{spec_dec, u64_to_string};
use vstd::prelude::*;

verus! {

/// The HTTP method of a request.
#[derive(Clone, Copy, Debug, PartialEq, Eq, Structural)]
pub enum Method {
    /// A GET request.
    Get,
    /// A POST request.
    Post,
}

/// The body of a request.
#[derive(Clone, Debug, PartialEq, Eq)]
pub enum Body {
    /// No body.
    Empty,
    /// Raw bytes handed over by the caller, sent exactly as given.
    Bytes(Vec<u8>),
    /// A form-encoded text body.
    Form(String),
}

/// The mathematical view of a request body.
pub enum BodySpec {
    /// No body.
    Empty,
    /// Raw bytes.
    Bytes(Seq<u8>),
    /// A form-encoded text body.
    Form(Seq<char>),
}

impl View for Body {
    type V = BodySpec;

    open spec fn view(&self) -> BodySpec {
        match self {
            Body::Empty => BodySpec::Empty,
            Body::Bytes(b) => BodySpec::Bytes(b@),
            Body::Form(s) => BodySpec::Form(s@),
        }
    }
}

/// The views of a sequence of string pairs.
pub open spec fn pairs_view(pairs: Seq<(String, String)>) -> Seq<(Seq<char>, Seq<char>)> {
    pairs.map_values(|p: (String, String)| (p.0@, p.1@))
}

/// The mathematical view of a request description.
pub struct RequestSpec {
    /// The HTTP method.
    pub method: Method,
    /// Scheme, host and path, without the query.
    pub url: Seq<char>,
    /// The query pairs, in order, not yet encoded.
    pub query: Seq<(Seq<char>, Seq<char>)>,
    /// The header pairs, in order.
    pub headers: Seq<(Seq<char>, Seq<char>)>,
    /// The body.
    pub body: BodySpec,
}

/// A fully formed request description, ready to hand to a transport.
#[derive(Clone, Debug, PartialEq, Eq)]
pub struct Request {
    /// The HTTP method.
    pub method: Method,
    /// Scheme, host and path, without the query.
    pub url: String,
    /// The query pairs, in order, not yet encoded.
    pub query: Vec<(String, String)>,
    /// The header pairs, in order.
    pub headers: Vec<(String, String)>,
    /// The body.
    pub body: Body,
}

impl View for Request {
    type V = RequestSpec;

    open spec fn view(&self) -> RequestSpec {
        RequestSpec {
            method: self.method,
            url: self.url@,
            query: pairs_view(self.query@),
            headers: pairs_view(self.headers@),
            body: self.body@,
        }
    }
}

/// The pair list with the value of `key` replaced at the key's first
/// occurrence, or with `(key, value)` appended when the key has none.
pub open spec fn spec_set_pair(
    pairs: Seq<(Seq<char>, Seq<char>)>,
    key: Seq<char>,
    value: Seq<char>,
) -> Seq<(Seq<char>, Seq<char>)>
    decreases pairs.len(),
{
    if pairs.len() == 0 {
        seq![(key, value)]
    } else if pairs[0].0 == key {
        seq![(key, value)] + pairs.drop_first()
    } else {
        seq![pairs[0]] + spec_set_pair(pairs.drop_first(), key, value)
    }
}

proof fn lemma_set_pair_found(
    pairs: Seq<(Seq<char>, Seq<char>)>,
    key: Seq<char>,
    value: Seq<char>,
    i: int,
)
    requires
        0 <= i < pairs.len(),
        pairs[i].0 == key,
        forall|j: int| 0 <= j < i ==> pairs[j].0 != key,
    ensures
        spec_set_pair(pairs, key, value) =~= pairs.update(i, (key, value)),
    decreases i,
{
    if i == 0 {
        assert(spec_set_pair(pairs, key, value) =~= pairs.update(0, (key, value)));
    } else {
        lemma_set_pair_found(pairs.drop_first(), key, value, i - 1);
        assert(spec_set_pair(pairs, key, value) =~= pairs.update(i, (key, value)));
    }
}

pub(crate) proof fn lemma_set_pair_missing(
    pairs: Seq<(Seq<char>, Seq<char>)>,
    key: Seq<char>,
    value: Seq<char>,
)
    requires
        forall|j: int| 0 <= j < pairs.len() ==> pairs[j].0 != key,
    ensures
        spec_set_pair(pairs, key, value) =~= pairs.push((key, value)),
    decreases pairs.len(),
{
    if pairs.len() > 0 {
        lemma_set_pair_missing(pairs.drop_first(), key, value);
        assert(spec_set_pair(pairs, key, value) =~= pairs.push((key, value)));
    }
}

/// Mapping the pairs to their views commutes with appending one pair.
pub(crate) proof fn lemma_pairs_view_push(pairs: Seq<(String, String)>, p: (String, String))
    ensures
        pairs_view(pairs.push(p)) =~= pairs_view(pairs).push((p.0@, p.1@)),
{
}

/// Replaces the first pair whose key is `key`, or appends one.
#[verifier::loop_isolation(false)]
fn set_pair(pairs: &mut Vec<(String, String)>, key: &str, value: &str)
    ensures
        pairs_view(final(pairs)@) == spec_set_pair(pairs_view(old(pairs)@), key@, value@),
{
    let ghost orig = pairs_view(pairs@);
    let owned_key: String = key.to_owned();
    let mut i: usize = 0;
    while i < pairs.len()
        invariant
            0 <= i <= pairs@.len(),
            pairs_view(pairs@) == orig,
            owned_key@ == key@,
            forall|j: int| 0 <= j < i ==> orig[j].0 != key@,
        decreases pairs@.len() - i,
    {
        if pairs[i].0 == owned_key {
            pairs[i] = (key.to_owned(), value.to_owned());
            proof {
                assert(pairs_view(pairs@) =~= orig.update(i as int, (key@, value@)));
                lemma_set_pair_found(orig, key@, value@, i as int);
            }
            return ;
        }
        proof {
            assert(orig[i as int].0 != key@);
        }
        i = i + 1;
    }
    pairs.push((key.to_owned(), value.to_owned()));
    proof {
        assert(pairs_view(pairs@) =~= orig.push((key@, value@)));
        lemma_set_pair_missing(orig, key@, value@);
    }
}

/// The form-encoded rendering of the pairs: each key and value
/// percent-encoded, written `key=value`, the pairs joined by `&`.  What the
/// encoder yields on given pairs is known only to it; the library's contracts
/// go through this name.
pub uninterp spec fn form_encoded(pairs: Seq<(Seq<char>, Seq<char>)>) -> Seq<char>;

/// Relies on url's `form_urlencoded::Serializer`: the rendering depends on
/// the pairs alone, in their order, and an empty pair list renders as the
/// empty string (the serializer writes nothing into its fresh target).
#[verifier::external_body]
pub(crate) fn form_urlencode(pairs: &[(String, String)]) -> (r: String)
    ensures
        r@ == form_encoded(pairs_view(pairs@)),
        pairs@.len() == 0 ==> r@ == Seq::<char>::empty(),
{
    url::form_urlencoded::Serializer::new(String::new())
        .extend_pairs(pairs.iter().map(|p| (&p.0, &p.1)))
        .finish()
}

/// The complete URL of a request: its base URL, then `?` and its
/// form-encoded query when the query has pairs.
pub open spec fn spec_full_url(r: RequestSpec) -> Seq<char> {
    if r.query.len() == 0 {
        r.url
    } else {
        r.url + "?"@ + form_encoded(r.query)
    }
}

impl Request {
    /// Renders the complete URL: the base URL, then `?` and the encoded
    /// query when the query has pairs.
    pub fn full_url(&self) -> (r: String)
        ensures
            r@ == spec_full_url(self@),
    {
        if self.query.len() == 0 {
            self.url.clone()
        } else {
            let mut out = self.url.clone();
            out.append("?");
            let encoded = form_urlencode(self.query.as_slice());
            out.append(encoded.as_str());
            proof {
                assert(out@ =~= spec_full_url(self@));
            }
            out
        }
    }

    /// Sets the value the service is to send as `User-Agent` when it fetches
    /// the page: the header `X-Forwarded-User-Agent` of this request.
    pub fn user_agent(&mut self, user_agent: &str)
        ensures
            final(self)@ == (RequestSpec {
                headers: spec_set_pair(old(self)@.headers, "X-Forwarded-User-Agent"@, user_agent@),
                ..old(self)@
            }),
    {
        set_pair(&mut self.headers, "X-Forwarded-User-Agent", user_agent);
    }

    /// Sets the value the service is to send as `Referer` when it fetches the
    /// page: the header `X-Forwarded-Referer` of this request.
    pub fn referer(&mut self, referer: &str)
        ensures
            final(self)@ == (RequestSpec {
                headers: spec_set_pair(old(self)@.headers, "X-Forwarded-Referer"@, referer@),
                ..old(self)@
            }),
    {
        set_pair(&mut self.headers, "X-Forwarded-Referer", referer);
    }

    /// Sets the value the service is to send as `Cookie` when it fetches the
    /// page: the header `X-Forwarded-Cookie` of this request.
    pub fn cookie(&mut self, cookie: &str)
        ensures
            final(self)@ == (RequestSpec {
                headers: spec_set_pair(old(self)@.headers, "X-Forwarded-Cookie"@, cookie@),
                ..old(self)@
            }),
    {
        set_pair(&mut self.headers, "X-Forwarded-Cookie", cookie);
    }

    /// Sets the service's timeout in milliseconds by appending a `timeout`
    /// query pair.  The default is five seconds.
    pub fn timeout(&mut self, milliseconds: u64)
        ensures
            final(self)@ == (RequestSpec {
                query: old(self)@.query.push(("timeout"@, spec_dec(milliseconds as nat))),
                ..old(self)@
            }),
    {
        let ghost orig = pairs_view(self.query@);
        let rendered = u64_to_string(milliseconds);
        self.query.push(("timeout".to_owned(), rendered));
        proof {
            assert(pairs_view(self.query@) =~= orig.push(("timeout"@, spec_dec(
                milliseconds as nat,
            ))));
        }
    }

    /// Turns the request into a raw-body submission: method POST, content type
    /// `text/html`, and the given bytes, unchanged, as the body.
    pub fn post_body(&mut self, body: &[u8])
        ensures
            final(self)@ == (RequestSpec {
                method: Method::Post,
                headers: spec_set_pair(old(self)@.headers, "Content-Type"@, "text/html"@),
                body: BodySpec::Bytes(body@),
                ..old(self)@
            }),
    {
        self.method = Method::Post;
        set_pair(&mut self.headers, "Content-Type", "text/html");
        self.body = Body::Bytes(vstd::slice::slice_to_vec(body));
    }
}

} // verus!
