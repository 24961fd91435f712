use crate::canonical::{param_views, query_suffix, render_query, Method, QueryParam};
use vstd::prelude::*;
use vstd::string::StringExecFns;

verus! {

/// One header of a request. Names are compared without regard to ASCII
/// letter case.
#[derive(Debug, Clone, PartialEq, Eq)]
pub struct Header {
    pub name: String,
    pub value: String,
}

impl View for Header {
    type V = (Seq<char>, Seq<char>);

    open spec fn view(&self) -> (Seq<char>, Seq<char>) {
        (self.name@, self.value@)
    }
}

/// The headers as plain text, in their order: for each, its name and its
/// value.
pub open spec fn header_views(headers: Seq<Header>) -> Seq<(Seq<char>, Seq<char>)> {
    Seq::new(headers.len(), |i: int| headers[i]@)
}

/// A request on its way to the gateway: what is signed and what is sent.
/// Its headers are a mapping: they are reached through `set`,
/// `set_default`, `header` and `headers` only, and no two of them have the
/// same name.
#[derive(Debug, Clone, PartialEq, Eq)]
pub struct OutboundRequest {
    method: Method,
    path: String,
    /// The pairs of the query, in the order in which they go on the wire.
    query_params: Vec<QueryParam>,
    headers: Vec<Header>,
    body: Option<Vec<u8>>,
}

/// What a request holds, as plain values.
pub struct RequestModel {
    pub method: Method,
    pub path: Seq<char>,
    pub query_params: Seq<(Seq<char>, Seq<char>)>,
    pub headers: Seq<(Seq<char>, Seq<char>)>,
    pub body: Option<Seq<u8>>,
}

/// The bytes of a body that may be missing.
pub open spec fn body_view(body: Option<Vec<u8>>) -> Option<Seq<u8>> {
    match body {
        Some(bytes) => Some(bytes@),
        None => None,
    }
}

impl RequestModel {
    /// No two headers of the request have the same name.
    pub open spec fn headers_are_distinct(self) -> bool {
        distinct_names(self.headers)
    }
}

impl View for OutboundRequest {
    type V = RequestModel;

    closed spec fn view(&self) -> RequestModel {
        RequestModel {
            method: self.method,
            path: self.path@,
            query_params: param_views(self.query_params@),
            headers: header_views(self.headers@),
            body: body_view(self.body),
        }
    }
}

/// `s` with each of the letters `A` to `Z` replaced by its lower-case form.
pub open spec fn ascii_lowercase(s: Seq<char>) -> Seq<char> {
    Seq::new(
        s.len(),
        |i: int|
            if 65 <= s[i] as int <= 90 {
                ((s[i] as int) + 32) as char
            } else {
                s[i]
            },
    )
}

/// Two header names are the same name when they differ at most in the case
/// of ASCII letters.
pub open spec fn same_name(a: Seq<char>, b: Seq<char>) -> bool {
    ascii_lowercase(a) == ascii_lowercase(b)
}

/// `str::eq_ignore_ascii_case` of std.
///
/// Trusted: the result says whether the two strings are equal once the
/// ASCII letters of both are put in lower case.
#[verifier::external_body]
pub(crate) fn names_match(a: &str, b: &str) -> (same: bool)
    ensures
        same == same_name(a@, b@),
{
    a.eq_ignore_ascii_case(b)
}

/// No two headers have the same name, letter case aside.
pub open spec fn distinct_names(headers: Seq<(Seq<char>, Seq<char>)>) -> bool {
    forall|i: int, j: int|
        0 <= i < j < headers.len() ==> !same_name(
            (#[trigger] headers[i]).0,
            (#[trigger] headers[j]).0,
        )
}

/// `i` is the position of the first header called `name`.
pub open spec fn is_first_match(
    headers: Seq<(Seq<char>, Seq<char>)>,
    name: Seq<char>,
    i: int,
) -> bool {
    &&& 0 <= i < headers.len()
    &&& same_name(headers[i].0, name)
    &&& forall|j: int| 0 <= j < i ==> !same_name((#[trigger] headers[j]).0, name)
}

/// Whether a header called `name` is present.
pub open spec fn has_header(headers: Seq<(Seq<char>, Seq<char>)>, name: Seq<char>) -> bool {
    exists|i: int| is_first_match(headers, name, i)
}

/// The position of the first header called `name`, where there is one.
pub open spec fn header_position(headers: Seq<(Seq<char>, Seq<char>)>, name: Seq<char>) -> int {
    choose|i: int| is_first_match(headers, name, i)
}

/// The value of the first header called `name`, if there is one.
pub open spec fn header_value(headers: Seq<(Seq<char>, Seq<char>)>, name: Seq<char>) -> Option<
    Seq<char>,
> {
    if has_header(headers, name) {
        Some(headers[header_position(headers, name)].1)
    } else {
        None
    }
}

/// The headers after `name` has been given `value`: the first header of
/// that name keeps its place and spelling and takes the value, and where
/// there is none a header is added at the end.
pub open spec fn headers_with(
    headers: Seq<(Seq<char>, Seq<char>)>,
    name: Seq<char>,
    value: Seq<char>,
) -> Seq<(Seq<char>, Seq<char>)> {
    if has_header(headers, name) {
        let at = header_position(headers, name);
        headers.update(at, (headers[at].0, value))
    } else {
        headers.push((name, value))
    }
}

/// The headers after `name` has been given `value` unless a header of
/// that name was there already.
pub open spec fn headers_with_default(
    headers: Seq<(Seq<char>, Seq<char>)>,
    name: Seq<char>,
    value: Seq<char>,
) -> Seq<(Seq<char>, Seq<char>)> {
    if has_header(headers, name) {
        headers
    } else {
        headers.push((name, value))
    }
}

/// The first match is unique: two positions that both are it are equal.
pub proof fn lemma_first_match_unique(
    headers: Seq<(Seq<char>, Seq<char>)>,
    name: Seq<char>,
    i: int,
    j: int,
)
    requires
        is_first_match(headers, name, i),
        is_first_match(headers, name, j),
    ensures
        i == j,
{
    if i < j {
        assert(!same_name(headers[i].0, name));
    } else if j < i {
        assert(!same_name(headers[j].0, name));
    }
}

/// A header called `name` at any position means that there is a first
/// one.
pub proof fn lemma_match_means_present(
    headers: Seq<(Seq<char>, Seq<char>)>,
    name: Seq<char>,
    i: int,
)
    requires
        0 <= i < headers.len(),
        same_name(headers[i].0, name),
    ensures
        has_header(headers, name),
    decreases i,
{
    if exists|k: int| 0 <= k < i && same_name((#[trigger] headers[k]).0, name) {
        let k = choose|k: int| 0 <= k < i && same_name((#[trigger] headers[k]).0, name);
        lemma_match_means_present(headers, name, k);
    } else {
        assert(is_first_match(headers, name, i));
    }
}

/// Where no header is called `name`, none at any position is.
pub proof fn lemma_absent_means_no_match(headers: Seq<(Seq<char>, Seq<char>)>, name: Seq<char>)
    requires
        !has_header(headers, name),
    ensures
        forall|i: int| 0 <= i < headers.len() ==> !same_name((#[trigger] headers[i]).0, name),
{
    assert forall|i: int| 0 <= i < headers.len() implies !same_name(
        (#[trigger] headers[i]).0,
        name,
    ) by {
        if same_name(headers[i].0, name) {
            lemma_match_means_present(headers, name, i);
        }
    }
}

/// A header added at the end under a name that no header has is found
/// under that name, with its value.
pub proof fn lemma_pushed_header_is_found(
    headers: Seq<(Seq<char>, Seq<char>)>,
    name: Seq<char>,
    value: Seq<char>,
)
    requires
        !has_header(headers, name),
    ensures
        header_value(headers.push((name, value)), name) == Some(value),
{
    let longer = headers.push((name, value));
    let last = headers.len() as int;
    lemma_absent_means_no_match(headers, name);
    assert(forall|j: int| 0 <= j < last ==> longer[j] == headers[j]);
    assert(is_first_match(longer, name, last));
    lemma_first_match_unique(longer, name, last, header_position(longer, name));
}

/// A header added at the end under a name that is not `other` changes
/// nothing for `other`.
pub proof fn lemma_pushed_header_keeps_others(
    headers: Seq<(Seq<char>, Seq<char>)>,
    name: Seq<char>,
    value: Seq<char>,
    other: Seq<char>,
)
    requires
        !same_name(name, other),
    ensures
        header_value(headers.push((name, value)), other) == header_value(headers, other),
{
    let longer = headers.push((name, value));
    assert(forall|j: int| 0 <= j < headers.len() ==> longer[j] == headers[j]);
    if has_header(headers, other) {
        let at = header_position(headers, other);
        assert(is_first_match(longer, other, at));
        lemma_first_match_unique(longer, other, at, header_position(longer, other));
    } else {
        lemma_absent_means_no_match(headers, other);
        if has_header(longer, other) {
            let at = header_position(longer, other);
            assert(is_first_match(longer, other, at));
            assert(same_name(longer[at].0, other));
        }
    }
}

/// After a header has been given a value, it is found with that value.
pub proof fn lemma_set_header_is_found(
    headers: Seq<(Seq<char>, Seq<char>)>,
    name: Seq<char>,
    value: Seq<char>,
)
    ensures
        header_value(headers_with(headers, name, value), name) == Some(value),
{
    if has_header(headers, name) {
        let at = header_position(headers, name);
        let changed = headers.update(at, (headers[at].0, value));
        assert(forall|j: int| 0 <= j < at ==> changed[j] == headers[j]);
        assert(is_first_match(changed, name, at));
        lemma_first_match_unique(changed, name, at, header_position(changed, name));
    } else {
        lemma_pushed_header_is_found(headers, name, value);
    }
}

/// Giving a header a value changes nothing for a header of another name.
pub proof fn lemma_set_header_keeps_others(
    headers: Seq<(Seq<char>, Seq<char>)>,
    name: Seq<char>,
    value: Seq<char>,
    other: Seq<char>,
)
    requires
        !same_name(name, other),
    ensures
        header_value(headers_with(headers, name, value), other) == header_value(headers, other),
{
    if has_header(headers, name) {
        let at = header_position(headers, name);
        let changed = headers.update(at, (headers[at].0, value));
        assert(forall|j: int| 0 <= j < headers.len() ==> (#[trigger] changed[j]).0 == headers[j].0);
        assert(!same_name(headers[at].0, other));
        if has_header(headers, other) {
            let found = header_position(headers, other);
            assert(is_first_match(changed, other, found));
            lemma_first_match_unique(changed, other, found, header_position(changed, other));
        } else {
            if has_header(changed, other) {
                let found = header_position(changed, other);
                assert(is_first_match(changed, other, found));
                assert(changed[found].0 == headers[found].0);
                lemma_match_means_present(headers, other, found);
            }
        }
    } else {
        lemma_pushed_header_keeps_others(headers, name, value, other);
    }
}

/// After a header has been given a default, it is found: with the value
/// that it had, or else with the default.
pub proof fn lemma_default_header_is_found(
    headers: Seq<(Seq<char>, Seq<char>)>,
    name: Seq<char>,
    value: Seq<char>,
)
    ensures
        header_value(headers_with_default(headers, name, value), name) == Some(
            match header_value(headers, name) {
                Some(given) => given,
                None => value,
            },
        ),
{
    if !has_header(headers, name) {
        lemma_pushed_header_is_found(headers, name, value);
    }
}

/// Giving a header a default changes nothing for a header of another
/// name.
pub proof fn lemma_default_header_keeps_others(
    headers: Seq<(Seq<char>, Seq<char>)>,
    name: Seq<char>,
    value: Seq<char>,
    other: Seq<char>,
)
    requires
        !same_name(name, other),
    ensures
        header_value(headers_with_default(headers, name, value), other) == header_value(
            headers,
            other,
        ),
{
    if !has_header(headers, name) {
        lemma_pushed_header_keeps_others(headers, name, value, other);
    }
}

/// Giving a header a value leaves no name twice where none was twice.
pub proof fn lemma_set_header_keeps_names_distinct(
    headers: Seq<(Seq<char>, Seq<char>)>,
    name: Seq<char>,
    value: Seq<char>,
)
    requires
        distinct_names(headers),
    ensures
        distinct_names(headers_with(headers, name, value)),
{
    if !has_header(headers, name) {
        lemma_absent_means_no_match(headers, name);
    }
}

/// Giving a header a default leaves no name twice where none was twice.
pub proof fn lemma_default_header_keeps_names_distinct(
    headers: Seq<(Seq<char>, Seq<char>)>,
    name: Seq<char>,
    value: Seq<char>,
)
    requires
        distinct_names(headers),
    ensures
        distinct_names(headers_with_default(headers, name, value)),
{
    if !has_header(headers, name) {
        lemma_absent_means_no_match(headers, name);
    }
}

/// Where no name is there twice, every header is the one that is found
/// under its name: what is read by name is what the list holds.
pub proof fn lemma_every_header_is_found(headers: Seq<(Seq<char>, Seq<char>)>, i: int)
    requires
        distinct_names(headers),
        0 <= i < headers.len(),
    ensures
        header_value(headers, headers[i].0) == Some(headers[i].1),
{
    let name = headers[i].0;
    assert(is_first_match(headers, name, i));
    lemma_first_match_unique(headers, name, i, header_position(headers, name));
}

/// Finds the first header called `name`.
fn find(headers: &Vec<Header>, name: &str) -> (found: Option<usize>)
    ensures
        found matches Some(i) ==> is_first_match(header_views(headers@), name@, i as int)
            && i as int == header_position(header_views(headers@), name@),
        found is Some <==> has_header(header_views(headers@), name@),
{
    let ghost all = header_views(headers@);
    let mut i: usize = 0;
    while i < headers.len()
        invariant
            i <= headers.len(),
            all == header_views(headers@),
            forall|j: int| 0 <= j < i ==> !same_name((#[trigger] all[j]).0, name@),
        decreases headers.len() - i,
    {
        proof {
            assert(all[i as int] == headers@[i as int]@);
        }
        if names_match(headers[i].name.as_str(), name) {
            proof {
                assert(is_first_match(all, name@, i as int));
                lemma_first_match_unique(all, name@, i as int, header_position(all, name@));
            }
            return Some(i);
        }
        i += 1;
    }
    proof {
        if has_header(all, name@) {
            assert(is_first_match(all, name@, header_position(all, name@)));
        }
    }
    None
}

impl OutboundRequest {
    /// A request with the given method and path, and with no query, no
    /// headers and no body.
    pub fn new(method: Method, path: &str) -> (request: OutboundRequest)
        ensures
            request@ == (RequestModel {
                method,
                path: path@,
                query_params: Seq::empty(),
                headers: Seq::empty(),
                body: None,
            }),
            request@.headers_are_distinct(),
    {
        let request = OutboundRequest {
            method,
            path: String::from_str(path),
            query_params: Vec::new(),
            headers: Vec::new(),
            body: None,
        };
        proof {
            assert(request@.query_params =~= Seq::empty());
            assert(request@.headers =~= Seq::empty());
        }
        request
    }

    /// Adds the pair `name=value` at the end of the query.
    pub fn query(&mut self, name: &str, value: &str)
        ensures
            final(self)@ == (RequestModel {
                query_params: old(self)@.query_params.push((name@, value@)),
                ..old(self)@
            }),
    {
        self.query_params.push(
            QueryParam { name: String::from_str(name), value: String::from_str(value) },
        );
        proof {
            assert(self@.query_params =~= old(self)@.query_params.push((name@, value@)));
        }
    }

    /// The method of the request.
    pub fn method(&self) -> (method: Method)
        ensures
            method == self@.method,
    {
        self.method
    }

    /// The path of the request.
    pub fn path(&self) -> (path: &str)
        ensures
            path@ == self@.path,
    {
        self.path.as_str()
    }

    /// The pairs of the query, in the order in which they go on the wire.
    pub fn query_params(&self) -> (params: &Vec<QueryParam>)
        ensures
            param_views(params@) == self@.query_params,
    {
        &self.query_params
    }

    /// The headers of the request, in their order.
    pub fn headers(&self) -> (headers: &Vec<Header>)
        ensures
            header_views(headers@) == self@.headers,
    {
        &self.headers
    }

    /// The body of the request, if it has one.
    pub fn body(&self) -> (body: &Option<Vec<u8>>)
        ensures
            body_view(*body) == self@.body,
    {
        &self.body
    }

    /// Whether the request has a header called `name`, in any letter case.
    pub fn has(&self, name: &str) -> (present: bool)
        ensures
            present == has_header(self@.headers, name@),
    {
        find(&self.headers, name).is_some()
    }

    /// The value of the header called `name`, in any letter case.
    pub fn header(&self, name: &str) -> (value: Option<&str>)
        ensures
            value is Some <==> has_header(self@.headers, name@),
            value matches Some(v) ==> Some(v@) == header_value(self@.headers, name@),
    {
        match find(&self.headers, name) {
            Some(i) => Some(self.headers[i].value.as_str()),
            None => None,
        }
    }

    /// Gives the header called `name` the value `value`. A header of that
    /// name that is already there keeps its place and its spelling.
    pub fn set(&mut self, name: &str, value: &str)
        ensures
            final(self)@ == (RequestModel {
                headers: headers_with(old(self)@.headers, name@, value@),
                ..old(self)@
            }),
            old(self)@.headers_are_distinct() ==> final(self)@.headers_are_distinct(),
    {
        match find(&self.headers, name) {
            Some(i) => {
                let kept = self.headers[i].name.clone();
                self.headers.set(i, Header { name: kept, value: String::from_str(value) });
            },
            None => {
                self.headers.push(
                    Header { name: String::from_str(name), value: String::from_str(value) },
                );
            },
        }
        proof {
            assert(self@.headers =~= headers_with(old(self)@.headers, name@, value@));
            if old(self)@.headers_are_distinct() {
                lemma_set_header_keeps_names_distinct(old(self)@.headers, name@, value@);
            }
        }
    }

    /// What the request line names: the path and the query, as they are
    /// signed.
    pub fn target(&self) -> (target: String)
        ensures
            target@ == self@.path + query_suffix(self@.query_params),
    {
        let mut target = String::from_str(self.path.as_str());
        let query = render_query(&self.query_params);
        target.append(query.as_str());
        target
    }

    /// Whether a transport that sends the path `path` and, after a `?`, the
    /// query `query` sends what is signed for this request: the request's
    /// own path and query, byte for byte.
    pub fn is_sent_as(&self, path: &str, query: Option<&str>) -> (same: bool)
        ensures
            same == (path@ + (match query {
                Some(q) => "?"@ + q@,
                None => Seq::empty(),
            }) == self@.path + query_suffix(self@.query_params)),
    {
        let mut sent = String::from_str(path);
        if let Some(q) = query {
            sent.append("?");
            sent.append(q);
            assert(sent@ =~= path@ + ("?"@ + q@));
        } else {
            assert(sent@ =~= path@ + Seq::<char>::empty());
        }
        let signed = self.target();
        sent == signed
    }

    /// The address of the request on the host `host`: the scheme `https`,
    /// the host, the path and the query.
    pub fn url(&self, host: &str) -> (address: String)
        ensures
            address@ == "https://"@ + host@ + self@.path + query_suffix(self@.query_params),
    {
        let mut address = String::from_str("https://");
        address.append(host);
        address.append(self.path.as_str());
        let query = render_query(&self.query_params);
        address.append(query.as_str());
        address
    }

    /// Gives the request a body.
    pub fn set_body(&mut self, body: Vec<u8>)
        ensures
            final(self)@ == (RequestModel { body: Some(body@), ..old(self)@ }),
    {
        self.body = Some(body);
    }
}

} // verus!
