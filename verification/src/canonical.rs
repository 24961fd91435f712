use vstd::prelude::*;
use vstd::string::StringExecFns;

verus! {

/// The HTTP method of a request.
#[derive(Debug, Clone, Copy, PartialEq, Eq, Structural)]
pub enum Method {
    Get,
    Post,
    Put,
    Patch,
    Delete,
    Head,
}

impl Method {
    /// The method's name as the request line carries it.
    pub open spec fn spec_name(self) -> Seq<char> {
        match self {
            Method::Get => "GET"@,
            Method::Post => "POST"@,
            Method::Put => "PUT"@,
            Method::Patch => "PATCH"@,
            Method::Delete => "DELETE"@,
            Method::Head => "HEAD"@,
        }
    }

    /// The method's name in lower case, as the signed text carries it.
    pub open spec fn spec_lowercase_name(self) -> Seq<char> {
        match self {
            Method::Get => "get"@,
            Method::Post => "post"@,
            Method::Put => "put"@,
            Method::Patch => "patch"@,
            Method::Delete => "delete"@,
            Method::Head => "head"@,
        }
    }

    /// The method's name as the request line carries it.
    pub fn name(self) -> (name: &'static str)
        ensures
            name@ == self.spec_name(),
    {
        match self {
            Method::Get => "GET",
            Method::Post => "POST",
            Method::Put => "PUT",
            Method::Patch => "PATCH",
            Method::Delete => "DELETE",
            Method::Head => "HEAD",
        }
    }

    /// The method's name in lower case, as the signed text carries it.
    pub fn lowercase_name(self) -> (name: &'static str)
        ensures
            name@ == self.spec_lowercase_name(),
    {
        match self {
            Method::Get => "get",
            Method::Post => "post",
            Method::Put => "put",
            Method::Patch => "patch",
            Method::Delete => "delete",
            Method::Head => "head",
        }
    }
}

/// One `name=value` pair of a request's query.
#[derive(Debug, Clone, PartialEq, Eq)]
pub struct QueryParam {
    pub name: String,
    pub value: String,
}

impl View for QueryParam {
    type V = (Seq<char>, Seq<char>);

    open spec fn view(&self) -> (Seq<char>, Seq<char>) {
        (self.name@, self.value@)
    }
}

/// The pairs of a query as plain text, in their order.
pub open spec fn param_views(params: Seq<QueryParam>) -> Seq<(Seq<char>, Seq<char>)> {
    Seq::new(params.len(), |i: int| params[i]@)
}

/// The pairs rendered as `name=value` and joined by `&`, in the order given.
pub open spec fn query_text(params: Seq<(Seq<char>, Seq<char>)>) -> Seq<char>
    decreases params.len(),
{
    if params.len() == 0 {
        Seq::empty()
    } else if params.len() == 1 {
        params[0].0 + "="@ + params[0].1
    } else {
        query_text(params.drop_last()) + "&"@ + params.last().0 + "="@ + params.last().1
    }
}

/// What follows the path on the wire: nothing for a request without
/// parameters, else `?` and the rendered pairs.
pub open spec fn query_suffix(params: Seq<(Seq<char>, Seq<char>)>) -> Seq<char> {
    if params.len() == 0 {
        Seq::empty()
    } else {
        "?"@ + query_text(params)
    }
}

/// The first line of the signed text.
pub open spec fn request_target_line(
    method: Method,
    path: Seq<char>,
    params: Seq<(Seq<char>, Seq<char>)>,
) -> Seq<char> {
    "(request-target): "@ + method.spec_lowercase_name() + " "@ + path + query_suffix(params)
}

/// The text that is signed: the request-target line and the `digest`,
/// `host` and `date` lines, in that order, joined by line feeds, with no
/// line feed at the end.
pub open spec fn canonical_string(
    method: Method,
    path: Seq<char>,
    params: Seq<(Seq<char>, Seq<char>)>,
    digest: Seq<char>,
    host: Seq<char>,
    date: Seq<char>,
) -> Seq<char> {
    request_target_line(method, path, params) + "\ndigest: "@ + digest + "\nhost: "@ + host
        + "\ndate: "@ + date
}

/// Renders the query of a request as the wire carries it after the path.
pub fn render_query(params: &Vec<QueryParam>) -> (text: String)
    ensures
        text@ == query_suffix(param_views(params@)),
{
    let ghost all = param_views(params@);
    let mut text = String::new();
    let mut i: usize = 0;
    while i < params.len()
        invariant
            i <= params.len(),
            all == param_views(params@),
            text@ == query_suffix(all.take(i as int)),
        decreases params.len() - i,
    {
        let ghost before = all.take(i as int);
        let ghost after = all.take(i + 1);
        proof {
            assert(after.drop_last() == before);
        }
        if i == 0 {
            text.append("?");
        } else {
            text.append("&");
        }
        text.append(params[i].name.as_str());
        text.append("=");
        text.append(params[i].value.as_str());
        i += 1;
    }
    proof {
        assert(all.take(params.len() as int) == all);
    }
    text
}

/// Builds the text that is signed for a request with the given method,
/// path and query and the given values of its `Digest`, `Host` and `Date`
/// headers. The pairs of the query keep the order in which they are given
/// and are not encoded again.
pub fn build(
    method: Method,
    path: &str,
    query_params: &Vec<QueryParam>,
    digest: &str,
    host: &str,
    date: &str,
) -> (text: String)
    ensures
        text@ == canonical_string(
            method,
            path@,
            param_views(query_params@),
            digest@,
            host@,
            date@,
        ),
{
    let mut text = String::from_str("(request-target): ");
    text.append(method.lowercase_name());
    text.append(" ");
    text.append(path);
    let query = render_query(query_params);
    text.append(query.as_str());
    text.append("\ndigest: ");
    text.append(digest);
    text.append("\nhost: ");
    text.append(host);
    text.append("\ndate: ");
    text.append(date);
    text
}

} // verus!
