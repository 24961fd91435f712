use crate::error::Error;
use vstd::prelude::*;
use vstd::string::StringExecFns;

verus! {

/// The error body of the gateway: a numeric code and a message.
#[derive(Debug, Clone, PartialEq, Eq)]
pub struct SatispayError {
    pub code: i64,
    pub message: String,
}

/// The query string `query` extended by the pair `name=value`: the pair is
/// introduced by `?` when it is the first one and by `&` otherwise.
pub open spec fn with_parameter(query: Seq<char>, name: Seq<char>, value: Seq<char>) -> Seq<char> {
    query + (if query.len() == 0 {
        "?"@
    } else {
        "&"@
    }) + name + "="@ + value
}

/// Appends `name=value` to the query string.
pub fn push_pair(query: &mut String, name: &str, value: &str)
    ensures
        final(query)@ == with_parameter(old(query)@, name@, value@),
{
    if query.as_str().is_empty() {
        query.append("?");
    } else {
        query.append("&");
    }
    query.append(name);
    query.append("=");
    query.append(value);
}

/// `From::from` of std for a type and itself.
///
/// Trusted: std documents this conversion as reflexive; it hands its
/// argument back.
pub assume_specification<Any>[ <Any as core::convert::From<Any>>::from ](given: Any) -> (same: Any)
    ensures
        same == given,
;

/// `From::from` of std, from a string slice to a `String`.
///
/// Trusted: the string has the text of the slice.
pub assume_specification<'a, 'b>[ <String as core::convert::From<&'a str>>::from ](
    slice: &'b str,
) -> (text: String)
    ensures
        text@ == slice@,
;

/// Appends `parameter_name=value` to the query string when a value is
/// given, and leaves the query string as it is when none is. The value is
/// what the parameter converts to.
pub fn push_to_query<'a, T>(query: &mut String, parameter_name: &str, parameter_value: Option<T>)
    where T: Into<String>
    ensures
        parameter_value is None ==> final(query)@ == old(query)@,
        parameter_value matches Some(v) ==> exists|s: String|
            call_ensures(<T as Into<String>>::into, (v,), s) && final(query)@ == with_parameter(
                old(query)@,
                parameter_name@,
                s@,
            ),
{
    if let Some(param) = parameter_value {
        let value: String = param.into();
        push_pair(query, parameter_name, value.as_str());
    }
}

/// What the error probe of a response body amounts to.
pub open spec fn errorize_spec<E>(result: Result<SatispayError, E>) -> Error {
    match result {
        Ok(x) => Error::SatispayError { code: x.code, message: x.message },
        Err(_) => Error::GenericError,
    }
}

/// Turns the outcome of decoding a body as a gateway error into the error
/// to report: the gateway's code and message when the body was one, the
/// generic error otherwise.
pub fn errorize<E>(result: Result<SatispayError, E>) -> (error: Error)
    ensures
        error == errorize_spec(result),
{
    if let Ok(x) = result {
        Error::SatispayError { code: x.code, message: x.message }
    } else {
        Error::GenericError
    }
}

} // verus!
