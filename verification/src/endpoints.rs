use crate::canonical::{query_suffix, request_target_line, Method};
use crate::decimal::{decimal, digit_char, digits, i32_text, u64_text};
use crate::json::{json_string_entry, spec_json_string_entry};
use crate::payment::PaymentStatus;
use crate::request::{OutboundRequest, RequestModel};
use crate::utils::{push_to_query, with_parameter};
use vstd::prelude::*;
use vstd::string::StringExecFns;

verus! {

/// The path under which payments are listed and created.
pub const PAYMENTS_PATH: &'static str = "/g_business/v1/payments";

/// The path under which one payment is found, before its identifier.
pub const PAYMENT_PREFIX: &'static str = "/g_business/v1/payments/";

/// The path under which a customer is found, before the phone number.
pub const CONSUMER_PREFIX: &'static str = "/g_business/v1/consumers/";

/// The path under which a daily closure is found, before its day.
pub const DAILY_CLOSURE_PREFIX: &'static str = "/g_business/v1/daily_closure/";

/// The pair `name=value` where a value is given, and nothing where none
/// is.
pub open spec fn present(name: Seq<char>, value: Option<Seq<char>>) -> Seq<
    (Seq<char>, Seq<char>),
> {
    match value {
        Some(v) => seq![(name, v)],
        None => Seq::empty(),
    }
}

/// The text of a string that may be missing.
pub open spec fn optional_text(value: Option<String>) -> Option<Seq<char>> {
    match value {
        Some(s) => Some(s@),
        None => None,
    }
}

/// The query of the call that lists payments: of the four parameters
/// those that are given, in this order.
pub open spec fn payments_list_params(
    status: Option<PaymentStatus>,
    limit: Option<i32>,
    starting_after: Option<Seq<char>>,
    starting_after_timestamp: Option<u64>,
) -> Seq<(Seq<char>, Seq<char>)> {
    present(
        "status"@,
        match status {
            Some(s) => Some(s.spec_name()),
            None => None,
        },
    ) + present(
        "limit"@,
        match limit {
            Some(n) => Some(decimal(n as int)),
            None => None,
        },
    ) + present(
        "starting_after_timestamp"@,
        match starting_after_timestamp {
            Some(n) => Some(decimal(n as int)),
            None => None,
        },
    ) + present("starting_after"@, starting_after)
}

/// Adding a pair to a query adds exactly `?name=value` or `&name=value` to
/// what the wire carries after the path.
pub proof fn lemma_query_suffix_push(
    params: Seq<(Seq<char>, Seq<char>)>,
    name: Seq<char>,
    value: Seq<char>,
)
    ensures
        query_suffix(params.push((name, value))) == with_parameter(
            query_suffix(params),
            name,
            value,
        ),
{
    let longer = params.push((name, value));
    assert(longer.drop_last() == params);
    reveal_strlit("?");
}

/// A parameter without a value adds nothing to the pairs of the query,
/// from which both the query on the wire and the text that is signed are
/// made; a parameter with a value adds exactly one pair, after those that
/// are there, and so `?name=value` or `&name=value` to the query on the
/// wire and to the first line of the text that is signed.
pub proof fn lemma_optional_parameter(
    method: Method,
    path: Seq<char>,
    params: Seq<(Seq<char>, Seq<char>)>,
    name: Seq<char>,
    value: Option<Seq<char>>,
)
    ensures
        value is None ==> params + present(name, value) == params,
        value matches Some(v) ==> {
            &&& params + present(name, value) == params.push((name, v))
            &&& query_suffix(params + present(name, value)) == with_parameter(
                query_suffix(params),
                name,
                v,
            )
            &&& request_target_line(method, path, params + present(name, value))
                == request_target_line(method, path, Seq::empty()) + with_parameter(
                query_suffix(params),
                name,
                v,
            )
        },
{
    if let Some(v) = value {
        lemma_query_suffix_push(params, name, v);
    }
}

/// Renders the query of the call that lists payments, as the wire carries
/// it after the path: a parameter that is not given leaves no trace, and
/// one that is given adds exactly one pair, in the order `status`,
/// `limit`, `starting_after_timestamp`, `starting_after`.
pub fn payments_list_query(
    status: Option<PaymentStatus>,
    limit: Option<i32>,
    starting_after: Option<String>,
    starting_after_timestamp: Option<u64>,
) -> (query: String)
    ensures
        query@ == query_suffix(
            payments_list_params(
                status,
                limit,
                optional_text(starting_after),
                starting_after_timestamp,
            ),
        ),
{
    let ghost after = optional_text(starting_after);
    let ghost with_status = present(
        "status"@,
        match status {
            Some(s) => Some(s.spec_name()),
            None => None,
        },
    );
    let ghost with_limit = with_status + present(
        "limit"@,
        match limit {
            Some(n) => Some(decimal(n as int)),
            None => None,
        },
    );
    let ghost with_timestamp = with_limit + present(
        "starting_after_timestamp"@,
        match starting_after_timestamp {
            Some(n) => Some(decimal(n as int)),
            None => None,
        },
    );
    let ghost with_after = with_timestamp + present("starting_after"@, after);
    let mut query = String::new();
    push_to_query(&mut query, "status", status);
    proof {
        if let Some(s) = status {
            lemma_query_suffix_push(Seq::empty(), "status"@, s.spec_name());
        }
    }
    let limit_text = match limit {
        Some(n) => Some(i32_text(n)),
        None => None,
    };
    push_to_query(&mut query, "limit", limit_text);
    proof {
        if let Some(n) = limit {
            lemma_query_suffix_push(with_status, "limit"@, decimal(n as int));
            assert(with_limit == with_status.push(("limit"@, decimal(n as int))));
        }
    }
    let timestamp_text = match starting_after_timestamp {
        Some(n) => Some(u64_text(n)),
        None => None,
    };
    push_to_query(&mut query, "starting_after_timestamp", timestamp_text);
    proof {
        if let Some(n) = starting_after_timestamp {
            let text = decimal(n as int);
            lemma_query_suffix_push(with_limit, "starting_after_timestamp"@, text);
            assert(with_timestamp == with_limit.push(("starting_after_timestamp"@, text)));
        }
    }
    push_to_query(&mut query, "starting_after", starting_after);
    proof {
        if let Some(s) = after {
            lemma_query_suffix_push(with_timestamp, "starting_after"@, s);
            assert(with_after == with_timestamp.push(("starting_after"@, s)));
        }
    }
    query
}

/// The pairs of `params` and then the pair `name=value` where a value is
/// given.
pub open spec fn with_present(request: RequestModel, name: Seq<char>, value: Option<Seq<char>>)
    -> RequestModel {
    RequestModel { query_params: request.query_params + present(name, value), ..request }
}

/// Adds the pair `name=value` to the query of `request` where a value is
/// given.
fn push_present(request: &mut OutboundRequest, name: &str, value: Option<String>)
    ensures
        final(request)@ == with_present(old(request)@, name@, optional_text(value)),
{
    if let Some(text) = value {
        request.query(name, text.as_str());
        assert(request@.query_params =~= old(request)@.query_params + present(name@, Some(text@)));
    } else {
        assert(request@.query_params =~= old(request)@.query_params + present(name@, None));
    }
}

/// A request without headers and without a body.
pub open spec fn bare_request(
    method: Method,
    path: Seq<char>,
    query_params: Seq<(Seq<char>, Seq<char>)>,
) -> RequestModel {
    RequestModel { method, path, query_params, headers: Seq::empty(), body: None }
}

/// A request with a body and without headers or a query.
pub open spec fn body_request(method: Method, path: Seq<char>, body: Seq<u8>) -> RequestModel {
    RequestModel {
        method,
        path,
        query_params: Seq::empty(),
        headers: Seq::empty(),
        body: Some(body),
    }
}

/// The request that lists the payments of the shop: a `GET` of the
/// payments path whose query holds, of the four parameters, those that
/// are given, in the order `status`, `limit`, `starting_after_timestamp`,
/// `starting_after`.
pub fn payments_list_request(
    status: Option<PaymentStatus>,
    limit: Option<i32>,
    starting_after: Option<String>,
    starting_after_timestamp: Option<u64>,
) -> (request: OutboundRequest)
    ensures
        request@ == bare_request(
            Method::Get,
            PAYMENTS_PATH@,
            payments_list_params(
                status,
                limit,
                optional_text(starting_after),
                starting_after_timestamp,
            ),
        ),
{
    let mut request = OutboundRequest::new(Method::Get, PAYMENTS_PATH);
    let status_text = match status {
        Some(s) => Some(String::from_str(s.name())),
        None => None,
    };
    let limit_text = match limit {
        Some(n) => Some(i32_text(n)),
        None => None,
    };
    let timestamp_text = match starting_after_timestamp {
        Some(n) => Some(u64_text(n)),
        None => None,
    };
    push_present(&mut request, "status", status_text);
    push_present(&mut request, "limit", limit_text);
    push_present(&mut request, "starting_after_timestamp", timestamp_text);
    push_present(&mut request, "starting_after", starting_after);
    proof {
        assert(request@.query_params =~= payments_list_params(
            status,
            limit,
            optional_text(starting_after),
            starting_after_timestamp,
        ));
    }
    request
}

/// The request for the details of the payment `id`.
pub fn payment_request(id: &str) -> (request: OutboundRequest)
    ensures
        request@ == bare_request(Method::Get, PAYMENT_PREFIX@ + id@, Seq::empty()),
{
    let mut path = String::from_str(PAYMENT_PREFIX);
    path.append(id);
    OutboundRequest::new(Method::Get, path.as_str())
}

/// The request for the customer with the phone number `phone_number`.
pub fn customer_request(phone_number: &str) -> (request: OutboundRequest)
    ensures
        request@ == bare_request(Method::Get, CONSUMER_PREFIX@ + phone_number@, Seq::empty()),
{
    let mut path = String::from_str(CONSUMER_PREFIX);
    path.append(phone_number);
    OutboundRequest::new(Method::Get, path.as_str())
}

/// Reads the identifier of a customer from the body of the answer: a JSON
/// object of strings with the identifier under `id`.
pub fn customer_id_from_json(text: &str) -> (id: Option<String>)
    ensures
        id matches Some(s) ==> spec_json_string_entry(text@, "id"@) == Some(s@),
        id is None ==> spec_json_string_entry(text@, "id"@) is None,
{
    json_string_entry(text, "id")
}

/// The request that changes the payment `id`; `body` is the JSON text of
/// the action.
pub fn update_payment_request(id: &str, body: Vec<u8>) -> (request: OutboundRequest)
    ensures
        request@ == body_request(Method::Put, PAYMENT_PREFIX@ + id@, body@),
{
    let mut path = String::from_str(PAYMENT_PREFIX);
    path.append(id);
    let mut request = OutboundRequest::new(Method::Put, path.as_str());
    request.set_body(body);
    request
}

/// The request that creates a payment; `body` is the JSON text of the new
/// payment.
pub fn create_payment_request(body: Vec<u8>) -> (request: OutboundRequest)
    ensures
        request@ == body_request(Method::Post, PAYMENTS_PATH@, body@),
{
    let mut request = OutboundRequest::new(Method::Post, PAYMENTS_PATH);
    request.set_body(body);
    request
}

/// The request for the daily closure of the day that `day` names, with
/// its receipt; `day` is the day as digits: year, month, day.
pub fn daily_closure_request_for(day: &str) -> (request: OutboundRequest)
    ensures
        request@ == bare_request(
            Method::Get,
            DAILY_CLOSURE_PREFIX@ + day@,
            seq![("generate_pdf"@, "true"@)],
        ),
{
    let mut path = String::from_str(DAILY_CLOSURE_PREFIX);
    path.append(day);
    let mut request = OutboundRequest::new(Method::Get, path.as_str());
    request.query("generate_pdf", "true");
    request
}

/// Whether `year` is a leap year of the Gregorian calendar.
pub open spec fn is_leap_year(year: int) -> bool {
    year % 4 == 0 && (year % 100 != 0 || year % 400 == 0)
}

/// The number of days of a month.
pub open spec fn days_in_month(year: int, month: int) -> int {
    if month == 2 {
        if is_leap_year(year) {
            29
        } else {
            28
        }
    } else if month == 4 || month == 6 || month == 9 || month == 11 {
        30
    } else {
        31
    }
}

/// Whether the three numbers name a day of the Gregorian calendar, in a
/// year that chrono holds: from -262143 to 262142.
pub open spec fn is_calendar_day(year: int, month: int, day: int) -> bool {
    &&& -262143 <= year <= 262142
    &&& 1 <= month <= 12
    &&& 1 <= day <= days_in_month(year, month)
}

/// A number below 100 as two digits.
pub open spec fn two_digits(n: int) -> Seq<char> {
    seq![digit_char(n / 10), digit_char(n % 10)]
}

/// A number of years as digits: four of them, with leading zeros, or more
/// where the number needs more.
pub open spec fn year_digits(n: nat) -> Seq<char> {
    if n < 10000 {
        two_digits((n / 100) as int) + two_digits((n % 100) as int)
    } else {
        digits(n)
    }
}

/// A year as text: its digits, and before them a sign where the year is
/// not one of 0 to 9999.
pub open spec fn year_text(year: int) -> Seq<char> {
    if year < 0 {
        seq!['-'] + year_digits((-year) as nat)
    } else if year > 9999 {
        seq!['+'] + year_digits(year as nat)
    } else {
        year_digits(year as nat)
    }
}

/// A day as the path of its daily closure writes it: the year, then the
/// month and the day in two digits each.
pub open spec fn day_digits(year: int, month: int, day: int) -> Seq<char> {
    year_text(year) + two_digits(month) + two_digits(day)
}

/// `NaiveDate::from_ymd_opt` and `NaiveDate::format` of chrono, the latter
/// with the pattern `%Y%m%d`.
///
/// Trusted: the three numbers are accepted exactly where they name a day
/// of the calendar in a year that chrono holds. The text is then the year
/// in four digits with leading zeros, with a sign before it where it is
/// not one of 0 to 9999, and the month and the day in two digits each.
#[verifier::external_body]
pub(crate) fn format_day(year: i32, month: u32, day: u32) -> (text: Option<String>)
    ensures
        text is Some <==> is_calendar_day(year as int, month as int, day as int),
        text matches Some(t) ==> t@ == day_digits(year as int, month as int, day as int),
{
    chrono::NaiveDate::from_ymd_opt(year, month, day).map(|d| d.format("%Y%m%d").to_string())
}

/// The request for the daily closure of the given day, with its receipt.
/// There is none where the numbers name no day of the calendar.
pub fn daily_closure_request(year: i32, month: u32, day: u32) -> (request: Option<
    OutboundRequest,
>)
    ensures
        request is Some <==> is_calendar_day(year as int, month as int, day as int),
        request matches Some(r) ==> r@ == bare_request(
            Method::Get,
            DAILY_CLOSURE_PREFIX@ + day_digits(year as int, month as int, day as int),
            seq![("generate_pdf"@, "true"@)],
        ),
{
    match format_day(year, month, day) {
        Some(text) => Some(daily_closure_request_for(text.as_str())),
        None => None,
    }
}

} // verus!
