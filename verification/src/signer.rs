use crate::canonical::{build, canonical_string};
use crate::digest::{compute, digest_value, sha256, spec_sha256};
use crate::encoding::{ascii_text, base64_encode, base64_nopad};
use crate::error::Error;
use crate::key::{spec_pkcs1_accepts, KeyMaterial};
use crate::request::{
    ascii_lowercase, has_header, header_value, headers_with, headers_with_default,
    lemma_default_header_is_found, lemma_default_header_keeps_others, lemma_set_header_is_found,
    lemma_set_header_keeps_others, same_name, OutboundRequest, RequestModel,
};
use vstd::prelude::*;
use vstd::string::StringExecFns;
use vstd::utf8::encode_utf8;

verus! {

/// The host that a request is sent to when it names none.
pub const GATEWAY_HOST: &'static str = "authservices.satispay.com";

/// The name of the signature algorithm, as the `Authorization` header
/// carries it.
pub const ALGORITHM: &'static str = "rsa-sha256";

/// The names of the lines that are signed, as the `Authorization` header
/// carries them.
pub const SIGNED_HEADERS: &'static str = "(request-target) digest host date";

/// The RSA signature with PKCS#1 v1.5 padding, under the private key that
/// `der` encodes, of a SHA-256 hash `hashed`: the raw signature bytes, or
/// `None` where the key is not accepted or the operation fails.
pub uninterp spec fn spec_pkcs1v15_sha256_sign(der: Seq<u8>, hashed: Seq<u8>) -> Option<Seq<u8>>;

/// `RsaPrivateKey::sign` of the rsa crate, with the padding
/// `Pkcs1v15Sign::new::<Sha256>()`, under the key that
/// `DecodeRsaPrivateKey::from_pkcs1_der` makes of the bytes, after
/// `RsaPrivateKey::clear_precomputed`.
///
/// Without its precomputed values the key signs by one modular power. The
/// other way, through the remainders of the two primes, does not come to
/// an end in reasonable time for a key whose primes differ much in size,
/// and such a key is accepted.
///
/// Trusted: signing without a random source is deterministic, so the
/// outcome depends on the key bytes and on the hash alone; and there is a
/// signature only under bytes that are accepted as a key. Nothing is
/// claimed of the signature itself.
#[verifier::external_body]
pub(crate) fn pkcs1v15_sha256_sign(der: &[u8], hashed: &[u8]) -> (signature: Option<Vec<u8>>)
    ensures
        signature matches Some(bytes) ==> spec_pkcs1v15_sha256_sign(der@, hashed@) == Some(bytes@),
        signature is None ==> spec_pkcs1v15_sha256_sign(der@, hashed@) is None,
        signature is Some ==> spec_pkcs1_accepts(der@),
{
    let mut key =
        <rsa::RsaPrivateKey as rsa::pkcs1::DecodeRsaPrivateKey>::from_pkcs1_der(der).ok()?;
    key.clear_precomputed();
    key.sign(rsa::pkcs1v15::Pkcs1v15Sign::new::<sha2::Sha256>(), hashed).ok()
}

/// `SystemTime::elapsed` of std, on `UNIX_EPOCH`: the whole seconds that
/// the clock counts since 1970, or `None` where the clock is set earlier.
///
/// Trusted: nothing is claimed of the number, which depends on the clock.
#[verifier::external_body]
pub(crate) fn unix_seconds() -> (seconds: Option<u64>) {
    std::time::UNIX_EPOCH.elapsed().ok().map(|since| since.as_secs())
}

/// The RFC 2822 timestamp, in UTC, of the moment `seconds` seconds after
/// the start of 1970, such as `Wed, 1 Jan 2020 00:00:00 +0000`; `None`
/// where the moment is out of chrono's range or its year has not one to
/// four digits.
pub uninterp spec fn spec_rfc2822(seconds: int) -> Option<Seq<char>>;

/// Whether `text` has the shape of an RFC 2822 timestamp in UTC as far as
/// its length and its end go: 30 or 31 characters, the last six of which
/// are ` +0000`.
pub open spec fn is_utc_timestamp(text: Seq<char>) -> bool {
    &&& text.len() == 30 || text.len() == 31
    &&& text.subrange(text.len() - 6, text.len() as int) == " +0000"@
}

/// `DateTime::from_timestamp` of chrono, and `DelayedFormat::write_to` on
/// what `DateTime::format_with_items` makes of the item `Fixed::RFC2822`.
///
/// Trusted: the outcome depends on the number alone; a text that comes
/// back is a three-letter weekday, a comma, the day in one or two digits,
/// a three-letter month, the year in four digits, the time as `hh:mm:ss`
/// and the offset `+0000`, single spaces between them. Neither call
/// unwinds: both report what they cannot represent.
#[verifier::external_body]
pub(crate) fn rfc2822_text(seconds: i64) -> (text: Option<String>)
    ensures
        text matches Some(t) ==> spec_rfc2822(seconds as int) == Some(t@) && is_utc_timestamp(t@),
        text is None ==> spec_rfc2822(seconds as int) is None,
{
    let moment = chrono::DateTime::from_timestamp(seconds, 0)?;
    let items = [chrono::format::Item::Fixed(chrono::format::Fixed::RFC2822)];
    let mut text = String::new();
    moment.format_with_items(items.iter()).write_to(&mut text).ok()?;
    Some(text)
}

/// The RFC 2822 timestamp, in UTC, of the moment `unix_seconds` seconds
/// after the start of 1970, where there is one.
pub fn date_text(unix_seconds: i64) -> (text: Option<String>)
    ensures
        text matches Some(t) ==> spec_rfc2822(unix_seconds as int) == Some(t@) && is_utc_timestamp(
            t@,
        ),
        text is None ==> spec_rfc2822(unix_seconds as int) is None,
{
    rfc2822_text(unix_seconds)
}

/// The signature that goes into the `Authorization` header for the signed
/// text `text` under the key `der`: the unpadded base64 text of the RSA
/// signature of the SHA-256 hash of the text's UTF-8 bytes.
pub open spec fn signature_text(der: Seq<u8>, text: Seq<char>) -> Option<Seq<char>> {
    match spec_pkcs1v15_sha256_sign(der, spec_sha256(encode_utf8(text))) {
        Some(bytes) => Some(ascii_text(base64_nopad(bytes))),
        None => None,
    }
}

/// How signing the text `text` under the key `der` ends: with the
/// signature, or with `SigningError` where there is none.
pub open spec fn is_signing_result(
    der: Seq<u8>,
    text: Seq<char>,
    res: Result<String, Error>,
) -> bool {
    match signature_text(der, text) {
        Some(signature) => res matches Ok(s) && s@ == signature,
        None => res == Err::<String, Error>(Error::SigningError),
    }
}

/// Signing is deterministic: two results of signing one text under one
/// key are both a signature, and then the same text, or both the same
/// error.
pub proof fn lemma_signing_is_deterministic(
    der: Seq<u8>,
    text: Seq<char>,
    first: Result<String, Error>,
    second: Result<String, Error>,
)
    requires
        is_signing_result(der, text, first),
        is_signing_result(der, text, second),
    ensures
        first is Ok <==> second is Ok,
        first matches Ok(a) ==> second matches Ok(b) && a@ == b@,
        first matches Err(e) ==> second == Err::<String, Error>(e),
{
}

/// Signs the text `text` with the key: hashes it, signs the hash and
/// encodes the signature. A failure of the RSA operation is reported as
/// `SigningError`.
pub fn sign_text(key: &KeyMaterial, text: &str) -> (res: Result<String, Error>)
    ensures
        is_signing_result(key.spec_der(), text@, res),
        res is Ok ==> spec_pkcs1_accepts(key.spec_der()),
{
    let hashed = sha256(text.as_bytes());
    match pkcs1v15_sha256_sign(key.private_key_der(), hashed.as_slice()) {
        Some(bytes) => Ok(base64_encode(bytes.as_slice())),
        None => Err(Error::SigningError),
    }
}

/// What the `Authorization` header says: which key signed, with which
/// algorithm, over which lines, and the signature.
#[derive(Debug, Clone, PartialEq, Eq)]
pub struct SignatureHeader {
    pub key_id: String,
    pub algorithm: String,
    pub headers: String,
    pub signature: String,
}

/// The value of the `Authorization` header.
pub open spec fn authorization_value(
    key_id: Seq<char>,
    algorithm: Seq<char>,
    headers: Seq<char>,
    signature: Seq<char>,
) -> Seq<char> {
    "Signature keyId=\""@ + key_id + "\", algorithm=\""@ + algorithm + "\", headers=\""@ + headers
        + "\", signature=\""@ + signature + "\""@
}

impl SignatureHeader {
    /// The value of the `Authorization` header that this is rendered to.
    pub open spec fn spec_render(&self) -> Seq<char> {
        authorization_value(self.key_id@, self.algorithm@, self.headers@, self.signature@)
    }

    /// Whether this is the header for the key `key_id` and the signature
    /// `signature`, with the algorithm and the signed lines that this
    /// library uses.
    pub open spec fn is_for(&self, key_id: Seq<char>, signature: Seq<char>) -> bool {
        &&& self.key_id@ == key_id
        &&& self.algorithm@ == ALGORITHM@
        &&& self.headers@ == SIGNED_HEADERS@
        &&& self.signature@ == signature
    }

    /// Renders the value of the `Authorization` header.
    pub fn render(&self) -> (value: String)
        ensures
            value@ == self.spec_render(),
    {
        let mut value = String::from_str("Signature keyId=\"");
        value.append(self.key_id.as_str());
        value.append("\", algorithm=\"");
        value.append(self.algorithm.as_str());
        value.append("\", headers=\"");
        value.append(self.headers.as_str());
        value.append("\", signature=\"");
        value.append(self.signature.as_str());
        value.append("\"");
        value
    }
}

/// The bytes that are sent as the body: those of the body, or none.
pub open spec fn body_bytes(body: Option<Seq<u8>>) -> Seq<u8> {
    match body {
        Some(bytes) => bytes,
        None => Seq::empty(),
    }
}

/// The value that the header `name` has once the headers are complete:
/// the one that the request carries, or else `default`.
pub open spec fn header_or(
    headers: Seq<(Seq<char>, Seq<char>)>,
    name: Seq<char>,
    default: Seq<char>,
) -> Seq<char> {
    match header_value(headers, name) {
        Some(value) => value,
        None => default,
    }
}

/// The text that is signed for `request`, where `now` is the timestamp
/// that a request without a `Date` header is given.
pub open spec fn signing_text(request: RequestModel, now: Seq<char>) -> Seq<char> {
    canonical_string(
        request.method,
        request.path,
        request.query_params,
        header_or(request.headers, "Digest"@, digest_value(body_bytes(request.body))),
        header_or(request.headers, "Host"@, GATEWAY_HOST@),
        header_or(request.headers, "Date"@, now),
    )
}

/// The headers of `request` once it is signed: `Digest`, `Host` and
/// `Date` where they were missing, then `Authorization`, and
/// `Content-Type` where the body is not empty.
pub open spec fn signed_headers(
    request: RequestModel,
    now: Seq<char>,
    authorization: Seq<char>,
) -> Seq<(Seq<char>, Seq<char>)> {
    let with_digest = headers_with_default(
        request.headers,
        "Digest"@,
        digest_value(body_bytes(request.body)),
    );
    let with_host = headers_with_default(with_digest, "Host"@, GATEWAY_HOST@);
    let with_date = headers_with_default(with_host, "Date"@, now);
    let with_authorization = headers_with(with_date, "Authorization"@, authorization);
    if body_bytes(request.body).len() > 0 {
        headers_with(with_authorization, "Content-Type"@, "application/json"@)
    } else {
        with_authorization
    }
}

/// How signing `before` with the key (`der`, `key_id`) at the time `now`
/// ends: with the header and the signed request `after`, or, where the
/// RSA operation fails, with `SigningError` and the request as it was.
pub open spec fn signing_outcome(
    der: Seq<u8>,
    key_id: Seq<char>,
    before: RequestModel,
    now: Seq<char>,
    res: Result<SignatureHeader, Error>,
    after: RequestModel,
) -> bool {
    match signature_text(der, signing_text(before, now)) {
        Some(signature) => {
            &&& res matches Ok(header)
            &&& header.is_for(key_id, signature)
            &&& after == (RequestModel {
                headers: signed_headers(before, now, header.spec_render()),
                ..before
            })
        },
        None => res == Err::<SignatureHeader, Error>(Error::SigningError) && after == before,
    }
}

/// The five headers that signing touches have five different names.
pub proof fn lemma_signing_names_differ()
    ensures
        !same_name("Digest"@, "Host"@),
        !same_name("Digest"@, "Date"@),
        !same_name("Host"@, "Digest"@),
        !same_name("Host"@, "Date"@),
        !same_name("Date"@, "Digest"@),
        !same_name("Date"@, "Host"@),
        !same_name("Authorization"@, "Digest"@),
        !same_name("Authorization"@, "Host"@),
        !same_name("Authorization"@, "Date"@),
        !same_name("Content-Type"@, "Digest"@),
        !same_name("Content-Type"@, "Host"@),
        !same_name("Content-Type"@, "Date"@),
        !same_name("Content-Type"@, "Authorization"@),
{
    reveal_strlit("Digest");
    reveal_strlit("Host");
    reveal_strlit("Date");
    reveal_strlit("Authorization");
    reveal_strlit("Content-Type");
    assert(ascii_lowercase("Digest"@).len() == 6);
    assert(ascii_lowercase("Host"@).len() == 4);
    assert(ascii_lowercase("Date"@).len() == 4);
    assert(ascii_lowercase("Authorization"@).len() == 13);
    assert(ascii_lowercase("Content-Type"@).len() == 12);
    assert(ascii_lowercase("Host"@)[0] == 'h');
    assert(ascii_lowercase("Date"@)[0] == 'd');
}

/// A signed request carries what was signed: the text that would be
/// signed for it, at whatever time, is the text that was signed. So the
/// `Digest`, `Host` and `Date` that go on the wire are those under the
/// signature.
pub proof fn lemma_signed_request_carries_what_was_signed(
    before: RequestModel,
    now: Seq<char>,
    authorization: Seq<char>,
    later: Seq<char>,
)
    ensures
        signing_text(
            RequestModel { headers: signed_headers(before, now, authorization), ..before },
            later,
        ) == signing_text(before, now),
{
    lemma_signing_names_differ();
    let digest = digest_value(body_bytes(before.body));
    let h0 = before.headers;
    let h1 = headers_with_default(h0, "Digest"@, digest);
    let h2 = headers_with_default(h1, "Host"@, GATEWAY_HOST@);
    let h3 = headers_with_default(h2, "Date"@, now);
    let h4 = headers_with(h3, "Authorization"@, authorization);

    lemma_default_header_is_found(h0, "Digest"@, digest);
    lemma_default_header_keeps_others(h0, "Digest"@, digest, "Host"@);
    lemma_default_header_keeps_others(h0, "Digest"@, digest, "Date"@);

    lemma_default_header_is_found(h1, "Host"@, GATEWAY_HOST@);
    lemma_default_header_keeps_others(h1, "Host"@, GATEWAY_HOST@, "Digest"@);
    lemma_default_header_keeps_others(h1, "Host"@, GATEWAY_HOST@, "Date"@);

    lemma_default_header_is_found(h2, "Date"@, now);
    lemma_default_header_keeps_others(h2, "Date"@, now, "Digest"@);
    lemma_default_header_keeps_others(h2, "Date"@, now, "Host"@);

    lemma_set_header_keeps_others(h3, "Authorization"@, authorization, "Digest"@);
    lemma_set_header_keeps_others(h3, "Authorization"@, authorization, "Host"@);
    lemma_set_header_keeps_others(h3, "Authorization"@, authorization, "Date"@);

    lemma_set_header_keeps_others(h4, "Content-Type"@, "application/json"@, "Digest"@);
    lemma_set_header_keeps_others(h4, "Content-Type"@, "application/json"@, "Host"@);
    lemma_set_header_keeps_others(h4, "Content-Type"@, "application/json"@, "Date"@);
}

/// A signed request carries its `Authorization` header, with the value
/// that was rendered for it.
pub proof fn lemma_signed_request_is_authorized(
    before: RequestModel,
    now: Seq<char>,
    authorization: Seq<char>,
)
    ensures
        header_value(signed_headers(before, now, authorization), "Authorization"@) == Some(
            authorization,
        ),
{
    lemma_signing_names_differ();
    let digest = digest_value(body_bytes(before.body));
    let h1 = headers_with_default(before.headers, "Digest"@, digest);
    let h2 = headers_with_default(h1, "Host"@, GATEWAY_HOST@);
    let h3 = headers_with_default(h2, "Date"@, now);
    let h4 = headers_with(h3, "Authorization"@, authorization);
    lemma_set_header_is_found(h3, "Authorization"@, authorization);
    lemma_set_header_keeps_others(h4, "Content-Type"@, "application/json"@, "Authorization"@);
}

/// The value of the header `name` of the request, or else `default`.
fn header_or_default(request: &OutboundRequest, name: &str, default: &str) -> (value: String)
    ensures
        value@ == header_or(request@.headers, name@, default@),
{
    match request.header(name) {
        Some(value) => String::from_str(value),
        None => String::from_str(default),
    }
}

impl OutboundRequest {
    /// Gives the header called `name` the value `value` unless the request
    /// has a header of that name.
    pub fn set_default(&mut self, name: &str, value: &str)
        ensures
            final(self)@ == (RequestModel {
                headers: headers_with_default(old(self)@.headers, name@, value@),
                ..old(self)@
            }),
            old(self)@.headers_are_distinct() ==> final(self)@.headers_are_distinct(),
    {
        if !self.has(name) {
            self.set(name, value);
        }
    }
}

/// Signs `request` with `key`, taking `now` as the timestamp for a request
/// without a `Date` header.
///
/// The text that is signed is built from the method, the path, the query
/// and the values of `Digest`, `Host` and `Date`, each as the request
/// carries it or else as its default. On success these three headers are
/// on the request with exactly those values, with `Authorization`, and
/// with `Content-Type` where the body is not empty. On failure the request
/// is left as it was.
pub fn sign_with_date(key: &KeyMaterial, request: &mut OutboundRequest, now: &str) -> (res: Result<
    SignatureHeader,
    Error,
>)
    ensures
        signing_outcome(
            key.spec_der(),
            key.spec_key_id(),
            old(request)@,
            now@,
            res,
            final(request)@,
        ),
        old(request)@.headers_are_distinct() ==> final(request)@.headers_are_distinct(),
{
    let empty: Vec<u8> = Vec::new();
    let has_body = match request.body() {
        Some(bytes) => bytes.len() > 0,
        None => false,
    };
    let computed = match request.body() {
        Some(bytes) => compute(bytes.as_slice()),
        None => compute(empty.as_slice()),
    };
    let digest = header_or_default(request, "Digest", computed.as_str());
    let host = header_or_default(request, "Host", GATEWAY_HOST);
    let date = header_or_default(request, "Date", now);
    let text = build(
        request.method(),
        request.path(),
        request.query_params(),
        digest.as_str(),
        host.as_str(),
        date.as_str(),
    );
    match sign_text(key, text.as_str()) {
        Ok(signature) => {
            let header = SignatureHeader {
                key_id: String::from_str(key.key_id()),
                algorithm: String::from_str(ALGORITHM),
                headers: String::from_str(SIGNED_HEADERS),
                signature,
            };
            let authorization = header.render();
            request.set_default("Digest", computed.as_str());
            request.set_default("Host", GATEWAY_HOST);
            request.set_default("Date", now);
            request.set("Authorization", authorization.as_str());
            if has_body {
                request.set("Content-Type", "application/json");
            }
            Ok(header)
        },
        Err(_) => Err(Error::SigningError),
    }
}

/// The timestamp that the answer of the clock gives: that of the seconds
/// that it counts since 1970, where it counts any, their number is within
/// the range of a signed 64-bit number and the moment has a timestamp.
pub open spec fn timestamp_of(clock: Option<u64>) -> Option<Seq<char>> {
    match clock {
        Some(seconds) => if seconds <= 0x7fff_ffff_ffff_ffff {
            spec_rfc2822(seconds as int)
        } else {
            None
        },
        None => None,
    }
}

/// How signing `before` ends when the clock answers `clock`: as signing
/// with the timestamp of that answer, which is a UTC timestamp; or, where
/// the answer gives none, with `SigningError` and the request as it was.
pub open spec fn signing_outcome_at(
    der: Seq<u8>,
    key_id: Seq<char>,
    before: RequestModel,
    clock: Option<u64>,
    res: Result<SignatureHeader, Error>,
    after: RequestModel,
) -> bool {
    match timestamp_of(clock) {
        Some(now) => is_utc_timestamp(now) && signing_outcome(der, key_id, before, now, res, after),
        None => res == Err::<SignatureHeader, Error>(Error::SigningError) && after == before,
    }
}

/// Signs `request` with `key`, given the answer of the clock: the seconds
/// that it counts since 1970, or none. The timestamp of that moment is the
/// date of a request without a `Date` header. Where the clock gave no
/// time, or a time that has no timestamp, nothing is signed: the result is
/// `SigningError` and the request is left as it was.
pub fn sign_at(key: &KeyMaterial, request: &mut OutboundRequest, clock: Option<u64>) -> (res:
    Result<SignatureHeader, Error>)
    ensures
        signing_outcome_at(
            key.spec_der(),
            key.spec_key_id(),
            old(request)@,
            clock,
            res,
            final(request)@,
        ),
        old(request)@.headers_are_distinct() ==> final(request)@.headers_are_distinct(),
{
    let seconds = match clock {
        Some(seconds) => seconds,
        None => {
            return Err(Error::SigningError);
        },
    };
    if seconds > 0x7fff_ffff_ffff_ffff {
        return Err(Error::SigningError);
    }
    match date_text(seconds as i64) {
        Some(now) => sign_with_date(key, request, now.as_str()),
        None => Err(Error::SigningError),
    }
}

/// Signs `request` with `key`. A request that carries a `Date` is signed
/// with it and the clock is not read; a request without one is signed as
/// by `sign_at`, with what the clock answers.
pub fn sign(key: &KeyMaterial, request: &mut OutboundRequest) -> (res: Result<
    SignatureHeader,
    Error,
>)
    ensures
        has_header(old(request)@.headers, "Date"@) ==> signing_outcome(
            key.spec_der(),
            key.spec_key_id(),
            old(request)@,
            ""@,
            res,
            final(request)@,
        ),
        !has_header(old(request)@.headers, "Date"@) ==> exists|clock: Option<u64>|
            signing_outcome_at(
                key.spec_der(),
                key.spec_key_id(),
                old(request)@,
                clock,
                res,
                final(request)@,
            ),
        old(request)@.headers_are_distinct() ==> final(request)@.headers_are_distinct(),
{
    if request.has("Date") {
        sign_with_date(key, request, "")
    } else {
        sign_at(key, request, unix_seconds())
    }
}

} // verus!
