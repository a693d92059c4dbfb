//! Typed request construction: URL paths, `application/x-www-form-urlencoded`
//! query strings, and the verbs that build one HTTP request each.
//!
//! Query-parameter policy: no empty keys are ever emitted, booleans are
//! serialized as the literal `true`, and pagination fields only when set.

use vstd::prelude::*;
use vstd::string::StringSliceAdditionalSpecFns;

verus! {

use crate::discovery::ApiResource;
use crate::strutil::{ascii_bytes_to_string, ascii_chars};

/// Bytes the form-urlencoded serializer passes through unchanged: `*`, `-`,
/// `.`, `_`, digits and ASCII letters.
pub open spec fn form_byte_keeps(b: u8) -> bool {
    ||| b == 0x2A
    ||| b == 0x2D
    ||| b == 0x2E
    ||| b == 0x5F
    ||| 0x30 <= b <= 0x39
    ||| 0x41 <= b <= 0x5A
    ||| 0x61 <= b <= 0x7A
}

/// The ASCII code of an uppercase hex digit for a value below sixteen.
pub open spec fn hex_digit(n: u8) -> u8 {
    if n < 10 {
        (0x30 + n) as u8
    } else {
        (0x37 + n) as u8
    }
}

/// How one byte is form-urlencoded: kept, a space as `+`, anything else as
/// `%` and two uppercase hex digits.
pub open spec fn form_encode_byte(b: u8) -> Seq<u8> {
    if form_byte_keeps(b) {
        seq![b]
    } else if b == 0x20 {
        seq![0x2Bu8]
    } else {
        seq![0x25u8, hex_digit(b / 16), hex_digit(b % 16)]
    }
}

/// A byte sequence form-urlencoded byte by byte.
pub open spec fn form_encode_bytes(bs: Seq<u8>) -> Seq<u8>
    decreases bs.len(),
{
    if bs.len() == 0 {
        Seq::empty()
    } else {
        form_encode_bytes(bs.drop_last()) + form_encode_byte(bs.last())
    }
}

/// One `key=value` pair as the serializer appends it, with a `&` separator
/// whenever the target was non-empty.
pub open spec fn spec_pair(sep: bool, k: Seq<u8>, v: Seq<u8>) -> Seq<char> {
    (if sep {
        "&"@
    } else {
        Seq::<char>::empty()
    }) + ascii_chars(form_encode_bytes(k)) + "="@ + ascii_chars(form_encode_bytes(v))
}

proof fn lemma_form_encode_bytes_ascii(bs: Seq<u8>)
    ensures
        forall|i: int|
            0 <= i < form_encode_bytes(bs).len() ==> #[trigger] form_encode_bytes(bs)[i] < 0x80,
    decreases bs.len(),
{
    if bs.len() > 0 {
        lemma_form_encode_bytes_ascii(bs.drop_last());
        let pre = form_encode_bytes(bs.drop_last());
        let one = form_encode_byte(bs.last());
        assert forall|i: int|
            0 <= i < form_encode_bytes(bs).len() implies #[trigger] form_encode_bytes(bs)[i]
            < 0x80 by {
            if i < pre.len() {
                assert(form_encode_bytes(bs)[i] == pre[i]);
            } else {
                assert(form_encode_bytes(bs)[i] == one[i - pre.len()]);
            }
        }
    }
}

/// Form-urlencodes the UTF-8 bytes of a component.
fn encode_component(s: &str) -> (r: String)
    ensures
        r@ == ascii_chars(form_encode_bytes(s.spec_bytes())),
{
    let bytes = s.as_bytes_vec();
    let mut out: Vec<u8> = Vec::new();
    let n = bytes.len();
    let mut i: usize = 0;
    while i < n
        invariant
            n == bytes@.len(),
            i <= n,
            out@ == form_encode_bytes(bytes@.subrange(0, i as int)),
            forall|j: int| 0 <= j < out@.len() ==> #[trigger] out@[j] < 0x80,
        decreases n - i,
    {
        let b = bytes[i];
        let keeps = b == 0x2A || b == 0x2D || b == 0x2E || b == 0x5F || (0x30 <= b && b <= 0x39)
            || (0x41 <= b && b <= 0x5A) || (0x61 <= b && b <= 0x7A);
        if keeps {
            out.push(b);
        } else if b == 0x20 {
            out.push(0x2B);
        } else {
            out.push(0x25);
            let hi = b / 16;
            let lo = b % 16;
            out.push(if hi < 10 { 0x30 + hi } else { 0x37 + hi });
            out.push(if lo < 10 { 0x30 + lo } else { 0x37 + lo });
        }
        proof {
            assert(bytes@.subrange(0, i + 1).drop_last() =~= bytes@.subrange(0, i as int));
            assert(bytes@.subrange(0, i + 1).last() == b);
            assert(out@ =~= form_encode_bytes(bytes@.subrange(0, i as int)) + form_encode_byte(b));
        }
        i = i + 1;
    }
    proof {
        assert(bytes@.subrange(0, n as int) =~= bytes@);
    }
    ascii_bytes_to_string(out)
}

/// The decimal digits of a natural number, most significant first.
pub open spec fn dec_bytes(n: nat) -> Seq<u8>
    decreases n,
{
    if n < 10 {
        seq![(0x30 + n) as u8]
    } else {
        dec_bytes(n / 10).push((0x30 + n % 10) as u8)
    }
}

/// The decimal digits of an integer, with a leading minus when negative.
pub open spec fn int_dec_bytes(n: int) -> Seq<u8> {
    if n < 0 {
        seq![0x2Du8] + dec_bytes((-n) as nat)
    } else {
        dec_bytes(n as nat)
    }
}

proof fn lemma_dec_bytes_ascii(n: nat)
    ensures
        forall|i: int| 0 <= i < dec_bytes(n).len() ==> 0x30 <= #[trigger] dec_bytes(n)[i] < 0x3A,
    decreases n,
{
    if n < 10 {
        assert(dec_bytes(n)[0] == (0x30 + n) as u8);
    } else {
        lemma_dec_bytes_ascii(n / 10);
        let pre = dec_bytes(n / 10);
        assert forall|i: int|
            0 <= i < dec_bytes(n).len() implies 0x30 <= #[trigger] dec_bytes(n)[i] < 0x3A by {
            if i < pre.len() {
                assert(dec_bytes(n)[i] == pre[i]);
            } else {
                assert(dec_bytes(n)[i] == (0x30 + n % 10) as u8);
            }
        }
    }
}

fn push_dec(n: u64, out: &mut Vec<u8>)
    ensures
        final(out)@ == old(out)@ + dec_bytes(n as nat),
    decreases n,
{
    if n < 10 {
        out.push(0x30 + (n as u8));
        proof {
            assert(final(out)@ =~= old(out)@ + dec_bytes(n as nat));
        }
    } else {
        push_dec(n / 10, out);
        out.push(0x30 + ((n % 10) as u8));
        proof {
            assert(final(out)@ =~= old(out)@ + dec_bytes(n as nat));
        }
    }
}

/// The decimal rendering of an unsigned number.
pub fn u64_to_string(n: u64) -> (r: String)
    ensures
        r@ == ascii_chars(dec_bytes(n as nat)),
{
    let mut out: Vec<u8> = Vec::new();
    push_dec(n, &mut out);
    proof {
        lemma_dec_bytes_ascii(n as nat);
    }
    ascii_bytes_to_string(out)
}

/// The decimal rendering of a signed number.
pub fn i64_to_string(n: i64) -> (r: String)
    ensures
        r@ == ascii_chars(int_dec_bytes(n as int)),
{
    if n >= 0 {
        u64_to_string(n as u64)
    } else {
        let magnitude: u64 = if n == i64::MIN {
            9223372036854775808u64
        } else {
            (-n) as u64
        };
        let mut out: Vec<u8> = Vec::new();
        out.push(0x2D);
        push_dec(magnitude, &mut out);
        proof {
            lemma_dec_bytes_ascii(magnitude as nat);
            assert(out@ =~= int_dec_bytes(n as int));
        }
        ascii_bytes_to_string(out)
    }
}

/// A query-string serializer over a base URL: each appended pair is
/// form-urlencoded and separated from non-empty prior text by `&`.
pub struct QueryBuilder {
    url: String,
}

impl View for QueryBuilder {
    type V = Seq<char>;

    closed spec fn view(&self) -> Seq<char> {
        self.url@
    }
}

impl QueryBuilder {
    /// A serializer appending to the given base.
    pub fn new(base: String) -> (r: QueryBuilder)
        ensures
            r@ == base@,
    {
        QueryBuilder { url: base }
    }

    /// Appends one `key=value` pair, form-urlencoding both.
    pub fn append_pair(&mut self, key: &str, value: &str)
        ensures
            final(self)@ == old(self)@ + spec_pair(
                old(self)@.len() > 0,
                key.spec_bytes(),
                value.spec_bytes(),
            ),
    {
        if !self.url.as_str().is_empty() {
            self.url.append("&");
        }
        let k = encode_component(key);
        self.url.append(k.as_str());
        self.url.append("=");
        let v = encode_component(value);
        self.url.append(v.as_str());
    }

    /// The finished URL.
    pub fn finish(self) -> (r: String)
        ensures
            r@ == self@,
    {
        self.url
    }
}

/// The URL path of a collection: `/api/<version>` for the core group,
/// `/apis/<group>/<version>` otherwise; then `/namespaces/<ns>` when one is
/// bound; then the plural resource name.
pub open spec fn url_path_of(
    group: Seq<char>,
    version: Seq<char>,
    plural: Seq<char>,
    namespace: Option<Seq<char>>,
) -> Seq<char> {
    (if group.len() == 0 {
        "/api/"@ + version
    } else {
        "/apis/"@ + group + "/"@ + version
    }) + (match namespace {
        Some(ns) => "/namespaces/"@ + ns,
        None => Seq::<char>::empty(),
    }) + "/"@ + plural
}

/// The namespace the collection URL names for a resource.
pub open spec fn spec_namespace_of(ns: Option<&str>) -> Option<Seq<char>> {
    match ns {
        Some(n) => Some(n@),
        None => None,
    }
}

/// Builds the collection URL path for a resource, inserting the namespace
/// when one is bound.
pub fn url_path(resource: &ApiResource, namespace: Option<&str>) -> (r: String)
    ensures
        r@ == url_path_of(
            resource.group@,
            resource.version@,
            resource.plural@,
            spec_namespace_of(namespace),
        ),
{
    let mut url = String::new();
    if resource.group.as_str().is_empty() {
        url.append("/api/");
        url.append(resource.version.as_str());
    } else {
        url.append("/apis/");
        url.append(resource.group.as_str());
        url.append("/");
        url.append(resource.version.as_str());
    }
    match namespace {
        Some(ns) => {
            url.append("/namespaces/");
            url.append(ns);
        },
        None => {},
    }
    url.append("/");
    url.append(resource.plural.as_str());
    url
}

/// Concatenation of sequences associates.
pub proof fn lemma_seq_assoc<A>(a: Seq<A>, b: Seq<A>, c: Seq<A>)
    ensures
        (a + b) + c == a + (b + c),
{
    assert((a + b) + c =~= a + (b + c));
}

/// The empty sequence is a right identity of concatenation.
pub proof fn lemma_seq_add_empty<A>(a: Seq<A>)
    ensures
        a + Seq::<A>::empty() == a,
{
    assert(a + Seq::<A>::empty() =~= a);
}

/// The UTF-8 bytes of a character sequence.
pub open spec fn utf8_bytes(s: Seq<char>) -> Seq<u8> {
    vstd::utf8::encode_utf8(s)
}

/// For ASCII bytes, viewing them as characters and re-encoding yields the
/// same bytes.
proof fn lemma_ascii_bytes_utf8(bs: Seq<u8>)
    requires
        forall|i: int| 0 <= i < bs.len() ==> #[trigger] bs[i] < 0x80,
    ensures
        utf8_bytes(ascii_chars(bs)) =~= bs,
{
    let cs = ascii_chars(bs);
    assert forall|i: int| 0 <= i < cs.len() implies '\0' <= #[trigger] cs[i] <= '\u{7f}' by {
        assert(cs[i] == bs[i] as char);
    }
    assert(vstd::utf8::is_ascii_chars(cs));
    vstd::utf8::is_ascii_chars_encode_utf8(cs);
}

impl QueryBuilder {
    /// Appends one pair whose value is a decimal unsigned number.
    pub fn append_u64(&mut self, key: &str, value: u64)
        ensures
            final(self)@ == old(self)@ + spec_pair(
                old(self)@.len() > 0,
                key.spec_bytes(),
                dec_bytes(value as nat),
            ),
    {
        let rendered = u64_to_string(value);
        proof {
            lemma_dec_bytes_ascii(value as nat);
            lemma_ascii_bytes_utf8(dec_bytes(value as nat));
        }
        self.append_pair(key, rendered.as_str());
    }

    /// Appends one pair whose value is a decimal signed number.
    pub fn append_i64(&mut self, key: &str, value: i64)
        ensures
            final(self)@ == old(self)@ + spec_pair(
                old(self)@.len() > 0,
                key.spec_bytes(),
                int_dec_bytes(value as int),
            ),
    {
        let rendered = i64_to_string(value);
        proof {
            if value < 0 {
                lemma_dec_bytes_ascii((-(value as int)) as nat);
            } else {
                lemma_dec_bytes_ascii(value as nat);
            }
            assert forall|i: int|
                0 <= i < int_dec_bytes(value as int).len() implies #[trigger] int_dec_bytes(
                value as int,
            )[i] < 0x80 by {
                if value < 0 && i > 0 {
                    assert(int_dec_bytes(value as int)[i] == dec_bytes(
                        (-(value as int)) as nat,
                    )[i - 1]);
                }
            }
            lemma_ascii_bytes_utf8(int_dec_bytes(value as int));
        }
        self.append_pair(key, rendered.as_str());
    }
}

/// The HTTP method of a built request.
#[derive(Debug, Clone, Copy, PartialEq, Eq, Structural)]
pub enum Method {
    /// `GET`
    Get,
    /// `POST`
    Post,
    /// `PUT`
    Put,
    /// `DELETE`
    Delete,
    /// `PATCH`
    Patch,
}

/// One HTTP request, ready for a transport to send: request-specific parts
/// only, with no base URI or authentication.
#[derive(Debug)]
pub struct HttpRequest {
    /// The method.
    pub method: Method,
    /// The URI, with the query string included.
    pub uri: String,
    /// The request body.
    pub body: Vec<u8>,
    /// The `Content-Type` header, when one is required.
    pub content_type: Option<String>,
}

/// Why a request could not be built.
#[derive(Debug, PartialEq)]
pub enum Error {
    /// The object has no name.
    UnnamedObject,
}

/// The scope a request addresses: the whole cluster or one namespace.
#[derive(Debug, Clone, PartialEq)]
pub enum RequestScope {
    /// Cluster-wide.
    Cluster,
    /// Bound to this namespace.
    Namespaced(String),
}

impl RequestScope {
    /// The namespace this scope binds, if any.
    pub open spec fn spec_namespace(&self) -> Option<Seq<char>> {
        match self {
            RequestScope::Cluster => None,
            RequestScope::Namespaced(ns) => Some(ns@),
        }
    }

    /// The namespace this scope binds, if any.
    pub fn namespace(&self) -> (r: Option<&str>)
        ensures
            spec_namespace_of(r) == self.spec_namespace(),
    {
        match self {
            RequestScope::Cluster => None,
            RequestScope::Namespaced(ns) => Some(ns.as_str()),
        }
    }
}

/// The collection URL of a resource in a scope.
pub open spec fn collection_url(resource: ApiResource, scope: RequestScope) -> Seq<char> {
    url_path_of(resource.group@, resource.version@, resource.plural@, scope.spec_namespace())
}

/// The text an optional selector appends: one form-encoded pair, or nothing.
pub open spec fn opt_pair(value: Option<&str>, key: Seq<char>) -> Seq<char> {
    match value {
        Some(v) => spec_pair(true, utf8_bytes(key), utf8_bytes(v@)),
        None => Seq::<char>::empty(),
    }
}

/// Common query parameters used to select multiple objects.
#[derive(Default)]
pub struct Query<'a> {
    /// Restricts the returned objects by their labels; everything if `None`.
    pub label_selector: Option<&'a str>,
    /// Restricts the returned objects by their fields; everything if `None`.
    pub field_selector: Option<&'a str>,
}

/// The selector pairs a query appends to a non-empty URL.
pub open spec fn query_suffix(q: Query<'_>) -> Seq<char> {
    opt_pair(q.label_selector, "labelSelector"@) + opt_pair(q.field_selector, "fieldSelector"@)
}

/// The parameters of a list operation, as callers hand them in.
#[derive(Default, Clone, Debug)]
pub struct ListParams {
    /// Restricts the returned objects by their labels.
    pub label_selector: Option<String>,
    /// Restricts the returned objects by their fields.
    pub field_selector: Option<String>,
}

impl<'a> Query<'a> {
    fn populate_qp(&self, qp: &mut QueryBuilder)
        requires
            old(qp)@.len() > 0,
        ensures
            final(qp)@ == old(qp)@ + query_suffix(*self),
    {
        match self.label_selector {
            Some(labels) => {
                qp.append_pair("labelSelector", labels);
            },
            None => {},
        }
        match self.field_selector {
            Some(fields) => {
                qp.append_pair("fieldSelector", fields);
            },
            None => {},
        }
    }

    /// A query borrowing the selectors of the given list parameters.
    pub fn from_list_params(lp: &'a ListParams) -> (r: Query<'a>)
        ensures
            match lp.label_selector {
                Some(ref l) => r.label_selector matches Some(s) && s@ == l@,
                None => r.label_selector is None,
            },
            match lp.field_selector {
                Some(ref f) => r.field_selector matches Some(s) && s@ == f@,
                None => r.field_selector is None,
            },
    {
        Query {
            label_selector: match &lp.label_selector {
                Some(l) => Some(l.as_str()),
                None => None,
            },
            field_selector: match &lp.field_selector {
                Some(f) => Some(f.as_str()),
                None => None,
            },
        }
    }
}

/// Get a single object.
pub struct Get<'a> {
    /// The name of the object.
    pub name: &'a str,
    /// The scope the object is queried from.
    pub scope: &'a RequestScope,
    /// The type of the object.
    pub dyn_type: &'a ApiResource,
}

impl<'a> Get<'a> {
    /// Builds `GET <collection>/<name>`.
    pub fn to_http_request(&self) -> (r: HttpRequest)
        ensures
            r.method == Method::Get,
            r.uri@ == collection_url(*self.dyn_type, *self.scope) + "/"@ + self.name@,
            r.body@.len() == 0,
            r.content_type is None,
    {
        let mut uri = url_path(self.dyn_type, self.scope.namespace());
        uri.append("/");
        uri.append(self.name);
        HttpRequest { method: Method::Get, uri, body: Vec::new(), content_type: None }
    }
}

/// List all objects of a resource type.
pub struct List<'a> {
    /// The scope the objects are queried from.
    pub scope: &'a RequestScope,
    /// The type of the objects.
    pub dyn_type: &'a ApiResource,
    /// The query to filter the objects by.
    pub query: &'a Query<'a>,
    /// Limits the number of results; the server then answers with a continue
    /// token for the next page.
    pub limit: Option<u32>,
    /// Fetches the page a previous response's continue token names.
    pub continue_token: Option<&'a str>,
}

/// The pagination pairs a list appends.
pub open spec fn pagination_suffix(limit: Option<u32>, continue_token: Option<&str>) -> Seq<
    char,
> {
    (match limit {
        Some(l) => spec_pair(true, utf8_bytes("limit"@), dec_bytes(l as nat)),
        None => Seq::<char>::empty(),
    }) + opt_pair(continue_token, "continue"@)
}

impl<'a> List<'a> {
    /// Builds `GET <collection>?<selectors>&limit=&continue=`, with the
    /// selector and pagination pairs only when set.
    pub fn to_http_request(&self) -> (r: HttpRequest)
        ensures
            r.method == Method::Get,
            r.uri@ == collection_url(*self.dyn_type, *self.scope) + "?"@ + query_suffix(
                *self.query,
            ) + pagination_suffix(self.limit, self.continue_token),
            r.body@.len() == 0,
            r.content_type is None,
    {
        let mut base = url_path(self.dyn_type, self.scope.namespace());
        base.append("?");
        proof {
            reveal_strlit("?");
        }
        let mut qp = QueryBuilder::new(base);
        self.query.populate_qp(&mut qp);
        match self.limit {
            Some(limit) => {
                qp.append_u64("limit", limit as u64);
            },
            None => {},
        }
        match self.continue_token {
            Some(cont) => {
                qp.append_pair("continue", cont);
            },
            None => {},
        }
        HttpRequest { method: Method::Get, uri: qp.finish(), body: Vec::new(), content_type: None }
    }
}

/// Watch all objects of a resource type for modifications.
pub struct Watch<'a> {
    /// The scope the objects are queried from.
    pub scope: &'a RequestScope,
    /// The type of the objects.
    pub dyn_type: &'a ApiResource,
    /// The query to filter the objects by.
    pub query: &'a Query<'a>,
    /// The `resourceVersion` to report events newer than.
    pub version: &'a str,
    /// Upper bound on how long the watch stays open, in whole seconds.
    pub timeout_seconds: Option<u64>,
}

impl<'a> Watch<'a> {
    /// Builds the watch request: `watch=1`, the resume version, bookmarks
    /// allowed, and the server-side timeout when set.
    pub fn to_http_request(&self) -> (r: HttpRequest)
        ensures
            r.method == Method::Get,
            r.uri@ == collection_url(*self.dyn_type, *self.scope) + "?"@ + spec_pair(
                true,
                utf8_bytes("watch"@),
                utf8_bytes("1"@),
            ) + spec_pair(true, utf8_bytes("resourceVersion"@), utf8_bytes(self.version@))
                + spec_pair(true, utf8_bytes("allowWatchBookmarks"@), utf8_bytes("1"@)) + (
            match self.timeout_seconds {
                Some(t) => spec_pair(true, utf8_bytes("timeoutSeconds"@), dec_bytes(t as nat)),
                None => Seq::<char>::empty(),
            }),
            r.body@.len() == 0,
            r.content_type is None,
    {
        let mut base = url_path(self.dyn_type, self.scope.namespace());
        base.append("?");
        proof {
            reveal_strlit("?");
        }
        let mut qp = QueryBuilder::new(base);
        qp.append_pair("watch", "1");
        qp.append_pair("resourceVersion", self.version);
        qp.append_pair("allowWatchBookmarks", "1");
        match self.timeout_seconds {
            Some(timeout) => {
                qp.append_u64("timeoutSeconds", timeout);
            },
            None => {},
        }
        HttpRequest { method: Method::Get, uri: qp.finish(), body: Vec::new(), content_type: None }
    }
}

/// Create a new object.
pub struct Create<'a> {
    /// The `metadata.name` of the object to be created, when it has one.
    pub name: Option<&'a str>,
    /// The serialized object.
    pub body: &'a [u8],
    /// The scope for the object to be created in.
    pub scope: &'a RequestScope,
    /// The type of the object.
    pub dyn_type: &'a ApiResource,
}

impl<'a> Create<'a> {
    /// Builds `POST <collection>/<name>` with the serialized object as the
    /// body; fails with [`Error::UnnamedObject`] exactly when the object has
    /// no name.
    pub fn to_http_request(&self) -> (r: Result<HttpRequest, Error>)
        ensures
            match self.name {
                Some(name) => {
                    &&& r matches Ok(req)
                    &&& req.method == Method::Post
                    &&& req.uri@ == collection_url(*self.dyn_type, *self.scope) + "/"@ + name@
                    &&& req.body@ == self.body@
                    &&& req.content_type is None
                },
                None => r == Err::<HttpRequest, Error>(Error::UnnamedObject),
            },
    {
        match self.name {
            Some(name) => {
                let mut uri = url_path(self.dyn_type, self.scope.namespace());
                uri.append("/");
                uri.append(name);
                Ok(
                    HttpRequest {
                        method: Method::Post,
                        uri,
                        body: vstd::slice::slice_to_vec(self.body),
                        content_type: None,
                    },
                )
            },
            None => Err(Error::UnnamedObject),
        }
    }
}

/// Delete a named object.
pub struct Delete<'a> {
    /// The name of the object to be deleted.
    pub name: &'a str,
    /// The scope for the object to be deleted from.
    pub scope: &'a RequestScope,
    /// The type of the object.
    pub dyn_type: &'a ApiResource,
}

impl<'a> Delete<'a> {
    /// Builds `DELETE <collection>/<name>`.
    pub fn to_http_request(&self) -> (r: HttpRequest)
        ensures
            r.method == Method::Delete,
            r.uri@ == collection_url(*self.dyn_type, *self.scope) + "/"@ + self.name@,
            r.body@.len() == 0,
            r.content_type is None,
    {
        let mut uri = url_path(self.dyn_type, self.scope.namespace());
        uri.append("/");
        uri.append(self.name);
        HttpRequest { method: Method::Delete, uri, body: Vec::new(), content_type: None }
    }
}

/// Delete all objects matching a search query.
pub struct DeleteCollection<'a> {
    /// The scope for the objects to be deleted from.
    pub scope: &'a RequestScope,
    /// The type of the objects.
    pub dyn_type: &'a ApiResource,
}

impl<'a> DeleteCollection<'a> {
    /// Builds `DELETE <collection>`.
    pub fn to_http_request(&self) -> (r: HttpRequest)
        ensures
            r.method == Method::Delete,
            r.uri@ == collection_url(*self.dyn_type, *self.scope),
            r.body@.len() == 0,
            r.content_type is None,
    {
        HttpRequest {
            method: Method::Delete,
            uri: url_path(self.dyn_type, self.scope.namespace()),
            body: Vec::new(),
            content_type: None,
        }
    }
}

/// A patch document, tagged with the patch strategy that determines its
/// content type.
#[derive(Debug, Clone, PartialEq)]
pub enum PatchDocument {
    /// Server-side apply; requires a field manager.
    Apply(Vec<u8>),
    /// RFC 6902 JSON patch.
    Json(Vec<u8>),
    /// RFC 7386 merge patch.
    Merge(Vec<u8>),
    /// Kubernetes strategic merge patch.
    Strategic(Vec<u8>),
}

impl PatchDocument {
    /// The `Content-Type` this patch strategy is sent under.
    pub open spec fn spec_content_type(self) -> Seq<char> {
        match self {
            PatchDocument::Apply(_) => "application/apply-patch+yaml"@,
            PatchDocument::Json(_) => "application/json-patch+json"@,
            PatchDocument::Merge(_) => "application/merge-patch+json"@,
            PatchDocument::Strategic(_) => "application/strategic-merge-patch+json"@,
        }
    }

    /// The serialized patch document.
    pub open spec fn spec_body(self) -> Seq<u8> {
        match self {
            PatchDocument::Apply(b) => b@,
            PatchDocument::Json(b) => b@,
            PatchDocument::Merge(b) => b@,
            PatchDocument::Strategic(b) => b@,
        }
    }

    /// The `Content-Type` this patch strategy is sent under.
    pub fn content_type(&self) -> (r: &'static str)
        ensures
            r@ == self.spec_content_type(),
    {
        match self {
            PatchDocument::Apply(_) => "application/apply-patch+yaml",
            PatchDocument::Json(_) => "application/json-patch+json",
            PatchDocument::Merge(_) => "application/merge-patch+json",
            PatchDocument::Strategic(_) => "application/strategic-merge-patch+json",
        }
    }

    pub(crate) fn body_bytes(&self) -> (r: Vec<u8>)
        ensures
            r@ == self.spec_body(),
    {
        match self {
            PatchDocument::Apply(b) => vstd::slice::slice_to_vec(b.as_slice()),
            PatchDocument::Json(b) => vstd::slice::slice_to_vec(b.as_slice()),
            PatchDocument::Merge(b) => vstd::slice::slice_to_vec(b.as_slice()),
            PatchDocument::Strategic(b) => vstd::slice::slice_to_vec(b.as_slice()),
        }
    }
}

/// Patch a named object.
pub struct Patch<'a> {
    /// The name of the object to patch.
    pub name: &'a str,
    /// The scope of the object.
    pub scope: &'a RequestScope,
    /// The type of the object.
    pub dyn_type: &'a ApiResource,
    /// The patch to be applied.
    pub patch: &'a PatchDocument,
    /// The field manager a server-side apply acts as.
    pub field_manager: Option<&'a str>,
}

impl<'a> Patch<'a> {
    /// Builds `PATCH <collection>/<name>` with the content type of the patch
    /// strategy; a server-side apply carries its `fieldManager` in the
    /// query.
    pub fn to_http_request(&self) -> (r: HttpRequest)
        requires
            self.patch is Apply ==> self.field_manager is Some,
        ensures
            r.method == Method::Patch,
            r.uri@ == collection_url(*self.dyn_type, *self.scope) + "/"@ + self.name@ + (
            match (self.patch, self.field_manager) {
                (PatchDocument::Apply(_), Some(fm)) => "?"@ + spec_pair(
                    true,
                    utf8_bytes("fieldManager"@),
                    utf8_bytes(fm@),
                ),
                _ => Seq::<char>::empty(),
            }),
            r.body@ == self.patch.spec_body(),
            r.content_type matches Some(ct) && ct@ == self.patch.spec_content_type(),
    {
        let mut uri = url_path(self.dyn_type, self.scope.namespace());
        uri.append("/");
        uri.append(self.name);
        let with_query = match (self.patch, self.field_manager) {
            (PatchDocument::Apply(_), Some(fm)) => {
                uri.append("?");
                proof {
                    reveal_strlit("?");
                }
                let mut qp = QueryBuilder::new(uri);
                qp.append_pair("fieldManager", fm);
                qp.finish()
            },
            _ => uri,
        };
        HttpRequest {
            method: Method::Patch,
            uri: with_query,
            body: self.patch.body_bytes(),
            content_type: Some(self.patch.content_type().to_owned()),
        }
    }
}

/// Replace a named existing object; the object must carry the
/// `metadata.resourceVersion` being replaced.
pub struct Replace<'a> {
    /// The `metadata.name` of the object to replace, when it has one.
    pub name: Option<&'a str>,
    /// The serialized object.
    pub body: &'a [u8],
    /// The scope of the object.
    pub scope: &'a RequestScope,
    /// The type of the object.
    pub dyn_type: &'a ApiResource,
}

impl<'a> Replace<'a> {
    /// Builds `PUT <collection>/<name>` with the serialized object as the
    /// body; fails with [`Error::UnnamedObject`] exactly when the object has
    /// no name.
    pub fn to_http_request(&self) -> (r: Result<HttpRequest, Error>)
        ensures
            match self.name {
                Some(name) => {
                    &&& r matches Ok(req)
                    &&& req.method == Method::Put
                    &&& req.uri@ == collection_url(*self.dyn_type, *self.scope) + "/"@ + name@
                    &&& req.body@ == self.body@
                    &&& req.content_type is None
                },
                None => r == Err::<HttpRequest, Error>(Error::UnnamedObject),
            },
    {
        match self.name {
            Some(name) => {
                let mut uri = url_path(self.dyn_type, self.scope.namespace());
                uri.append("/");
                uri.append(name);
                Ok(
                    HttpRequest {
                        method: Method::Put,
                        uri,
                        body: vstd::slice::slice_to_vec(self.body),
                        content_type: None,
                    },
                )
            },
            None => Err(Error::UnnamedObject),
        }
    }
}

/// Get the API server's version.
pub struct GetApiserverVersion;

impl GetApiserverVersion {
    /// Builds `GET /version`.
    pub fn to_http_request(&self) -> (r: HttpRequest)
        ensures
            r.method == Method::Get,
            r.uri@ == "/version"@,
            r.body@.len() == 0,
            r.content_type is None,
    {
        HttpRequest {
            method: Method::Get,
            uri: "/version".to_owned(),
            body: Vec::new(),
            content_type: None,
        }
    }
}

/// Get all API groups the server serves.
pub struct ListApiGroups;

impl ListApiGroups {
    /// Builds `GET /apis`.
    pub fn to_http_request(&self) -> (r: HttpRequest)
        ensures
            r.method == Method::Get,
            r.uri@ == "/apis"@,
            r.body@.len() == 0,
            r.content_type is None,
    {
        HttpRequest {
            method: Method::Get,
            uri: "/apis".to_owned(),
            body: Vec::new(),
            content_type: None,
        }
    }
}

/// Get all supported versions of the legacy core API group.
pub struct ListCoreApiVersions;

impl ListCoreApiVersions {
    /// Builds `GET /api`.
    pub fn to_http_request(&self) -> (r: HttpRequest)
        ensures
            r.method == Method::Get,
            r.uri@ == "/api"@,
            r.body@.len() == 0,
            r.content_type is None,
    {
        HttpRequest {
            method: Method::Get,
            uri: "/api".to_owned(),
            body: Vec::new(),
            content_type: None,
        }
    }
}

/// Get all resources the server serves for one API group and version.
pub struct ListApiGroupResources<'a> {
    /// The API group; the empty string names the legacy core group.
    pub group: &'a str,
    /// The API version.
    pub version: &'a str,
}

impl<'a> ListApiGroupResources<'a> {
    /// Builds `GET /api/<version>` for the core group and
    /// `GET /apis/<group>/<version>` otherwise.
    pub fn to_http_request(&self) -> (r: HttpRequest)
        ensures
            r.method == Method::Get,
            r.uri@ == if self.group@.len() == 0 {
                "/api/"@ + self.version@
            } else {
                "/apis/"@ + self.group@ + "/"@ + self.version@
            },
            r.body@.len() == 0,
            r.content_type is None,
    {
        let mut uri = String::new();
        if self.group.is_empty() {
            uri.append("/api/");
            uri.append(self.version);
        } else {
            uri.append("/apis/");
            uri.append(self.group);
            uri.append("/");
            uri.append(self.version);
        }
        HttpRequest { method: Method::Get, uri, body: Vec::new(), content_type: None }
    }
}

} // verus!
