use crate::encoding::{base64_decode, base64_nopad, lemma_base64_nopad_injective};
use crate::error::Error;
use crate::json::{json_string_entry, spec_json_string_entry};
use vstd::prelude::*;

verus! {

/// Whether `der` is accepted as a PKCS#1 RSA private key: a DER structure
/// of that shape, with two primes, whose numbers pass the checks that the
/// rsa crate makes of a key.
pub uninterp spec fn spec_pkcs1_accepts(der: Seq<u8>) -> bool;

/// `DecodeRsaPrivateKey::from_pkcs1_der` of the rsa crate, for
/// `RsaPrivateKey`; only whether it succeeded is handed on.
///
/// Trusted: whether the bytes are accepted depends on the bytes alone.
#[verifier::external_body]
pub(crate) fn pkcs1_check(der: &[u8]) -> (accepted: bool)
    ensures
        accepted == spec_pkcs1_accepts(der@),
{
    <rsa::RsaPrivateKey as rsa::pkcs1::DecodeRsaPrivateKey>::from_pkcs1_der(der).is_ok()
}

/// Whether the bytes are a PKCS#1 RSA private key that is accepted.
pub fn is_private_key(der: &[u8]) -> (accepted: bool)
    ensures
        accepted == spec_pkcs1_accepts(der@),
{
    pkcs1_check(der)
}

/// The private key with which requests are signed, and the identifier that
/// the gateway knows it by. Neither changes once the value is made.
#[derive(Clone)]
pub struct KeyMaterial {
    private_key_der: Vec<u8>,
    key_id: String,
}

impl KeyMaterial {
    /// The DER bytes of the private key.
    pub closed spec fn spec_der(&self) -> Seq<u8> {
        self.private_key_der@
    }

    /// The key identifier.
    pub closed spec fn spec_key_id(&self) -> Seq<char> {
        self.key_id@
    }

    /// What holds of every value that `load` makes: the key is a PKCS#1
    /// RSA private key and the identifier is not empty.
    pub open spec fn wf(&self) -> bool {
        &&& spec_pkcs1_accepts(self.spec_der())
        &&& self.spec_key_id().len() > 0
    }

    /// Makes key material from the DER bytes of a PKCS#1 RSA private key
    /// and its identifier. Bytes that are not such a key are refused with
    /// `KeyFormatError`; the identifier is kept as given.
    pub fn load(private_key_der: &[u8], key_id: String) -> (res: Result<KeyMaterial, Error>)
        requires
            key_id@.len() > 0,
        ensures
            res is Ok <==> spec_pkcs1_accepts(private_key_der@),
            res matches Ok(key) ==> key.wf() && key.spec_der() == private_key_der@
                && key.spec_key_id() == key_id@,
            res matches Err(e) ==> e == Error::KeyFormatError,
    {
        if pkcs1_check(private_key_der) {
            Ok(KeyMaterial { private_key_der: vstd::slice::slice_to_vec(private_key_der), key_id })
        } else {
            Err(Error::KeyFormatError)
        }
    }

    /// The key identifier.
    pub fn key_id(&self) -> (id: &str)
        ensures
            id@ == self.spec_key_id(),
    {
        self.key_id.as_str()
    }

    /// The DER bytes of the private key.
    pub fn private_key_der(&self) -> (der: &[u8])
        ensures
            der@ == self.spec_der(),
    {
        self.private_key_der.as_slice()
    }
}

/// The first position from `from` up to `to` whose byte is a line feed
/// (`feed`) or is none (`!feed`); `to` where there is no such byte.
pub open spec fn next_where(text: Seq<u8>, from: int, to: int, feed: bool) -> int
    decreases to - from,
{
    if from >= to {
        to
    } else if (text[from] == 10u8) == feed {
        from
    } else {
        next_where(text, from + 1, to, feed)
    }
}

/// The position after the last byte from `from` up to `to` that is a line
/// feed (`feed`) or is none (`!feed`); `from` where there is no such byte.
pub open spec fn last_where(text: Seq<u8>, from: int, to: int, feed: bool) -> int
    decreases to - from,
{
    if to <= from {
        from
    } else if (text[to - 1] == 10u8) == feed {
        to
    } else {
        last_where(text, from, to - 1, feed)
    }
}

/// The bytes of `text` from `from` up to `to` without the line feeds: the
/// lines joined.
pub open spec fn joined(text: Seq<u8>, from: int, to: int) -> Seq<u8>
    decreases to - from,
{
    if to <= from {
        Seq::empty()
    } else if text[to - 1] == 10u8 {
        joined(text, from, to - 1)
    } else {
        joined(text, from, to - 1).push(text[to - 1])
    }
}

/// What opens the first line of the armor: `-----BEGIN `.
pub open spec fn begin_mark() -> Seq<u8> {
    seq![45u8, 45u8, 45u8, 45u8, 45u8, 66u8, 69u8, 71u8, 73u8, 78u8, 32u8]
}

/// What opens the last line of the armor: `-----END `.
pub open spec fn end_mark() -> Seq<u8> {
    seq![45u8, 45u8, 45u8, 45u8, 45u8, 69u8, 78u8, 68u8, 32u8]
}

/// What closes both lines of the armor: `-----`.
pub open spec fn dashes() -> Seq<u8> {
    seq![45u8, 45u8, 45u8, 45u8, 45u8]
}

/// Whether `text` holds `pattern` at the position `at`.
pub open spec fn has_at(text: Seq<u8>, at: int, pattern: Seq<u8>) -> bool {
    0 <= at && at + pattern.len() <= text.len() && text.subrange(at, at + pattern.len())
        == pattern
}

/// The base64 text that a private key file holds, its lines joined.
///
/// Line feeds before and after the text do not count. A text whose first
/// line opens with `-----BEGIN ` is armored: that line is `-----BEGIN `,
/// a label and `-----`; the last line is `-----END `, the same label and
/// `-----`; what stands between the two lines is the key. An armored text
/// whose armor is not of this form holds nothing. A text that is not
/// armored is the key as it stands.
pub open spec fn pem_body(text: Seq<u8>) -> Option<Seq<u8>> {
    let start = next_where(text, 0, text.len() as int, false);
    let end = last_where(text, start, text.len() as int, false);
    if has_at(text, start, begin_mark()) {
        let first_end = next_where(text, start, end, true);
        let last_start = last_where(text, first_end, end, true);
        let label = text.subrange(start + 11, first_end - 5);
        if first_end < end && first_end - start >= 16 && has_at(text, first_end - 5, dashes())
            && text.subrange(last_start, end) == end_mark() + label + dashes() {
            Some(joined(text, first_end, last_start))
        } else {
            None
        }
    } else {
        Some(joined(text, start, end))
    }
}

/// Finds the first byte from `from` up to `to` that is, or is not, a line
/// feed.
fn scan_forward(text: &[u8], from: usize, to: usize, feed: bool) -> (at: usize)
    requires
        from <= to <= text.len(),
    ensures
        at == next_where(text@, from as int, to as int, feed),
        from <= at <= to,
        at < to ==> (text@[at as int] == 10u8) == feed,
{
    let mut at = from;
    while at < to && (text[at] == 10u8) != feed
        invariant
            from <= at <= to <= text.len(),
            next_where(text@, from as int, to as int, feed) == next_where(
                text@,
                at as int,
                to as int,
                feed,
            ),
        decreases to - at,
    {
        at += 1;
    }
    at
}

/// Finds the end of the last byte from `from` up to `to` that is, or is
/// not, a line feed.
fn scan_backward(text: &[u8], from: usize, to: usize, feed: bool) -> (at: usize)
    requires
        from <= to <= text.len(),
    ensures
        at == last_where(text@, from as int, to as int, feed),
        from <= at <= to,
        at > from ==> (text@[at - 1] == 10u8) == feed,
{
    let mut at = to;
    while at > from && (text[at - 1] == 10u8) != feed
        invariant
            from <= at <= to <= text.len(),
            last_where(text@, from as int, to as int, feed) == last_where(
                text@,
                from as int,
                at as int,
                feed,
            ),
        decreases at - from,
    {
        at -= 1;
    }
    at
}

/// Joins the lines of `text` from `from` up to `to`.
fn join_lines(text: &[u8], from: usize, to: usize) -> (body: Vec<u8>)
    requires
        from <= to <= text.len(),
    ensures
        body@ == joined(text@, from as int, to as int),
{
    let mut body: Vec<u8> = Vec::new();
    let mut i = from;
    while i < to
        invariant
            from <= i <= to <= text.len(),
            body@ == joined(text@, from as int, i as int),
        decreases to - i,
    {
        if text[i] != 10u8 {
            body.push(text[i]);
        }
        i += 1;
    }
    body
}

/// Whether `text` holds the same `len` bytes at `a` and at `b`.
fn same_bytes(text: &[u8], a: usize, b: usize, len: usize) -> (same: bool)
    requires
        a + len <= text.len(),
        b + len <= text.len(),
    ensures
        same == (text@.subrange(a as int, a + len) == text@.subrange(b as int, b + len)),
{
    let mut k: usize = 0;
    while k < len
        invariant
            k <= len,
            a + len <= text.len(),
            b + len <= text.len(),
            text@.subrange(a as int, a + k) == text@.subrange(b as int, b + k),
        decreases len - k,
    {
        if text[a + k] != text[b + k] {
            proof {
                let left = text@.subrange(a as int, a + len);
                let right = text@.subrange(b as int, b + len);
                assert(left[k as int] != right[k as int]);
            }
            return false;
        }
        proof {
            let left = text@.subrange(a as int, a + k);
            let right = text@.subrange(b as int, b + k);
            assert(text@.subrange(a as int, a + k + 1) =~= left.push(text@[a + k]));
            assert(text@.subrange(b as int, b + k + 1) =~= right.push(text@[b + k]));
        }
        k += 1;
    }
    true
}

/// Whether `text` holds `pattern` at the position `at`.
fn matches_at(text: &[u8], at: usize, pattern: &[u8]) -> (found: bool)
    ensures
        found == has_at(text@, at as int, pattern@),
{
    if pattern.len() > text.len() || at > text.len() - pattern.len() {
        return false;
    }
    let mut k: usize = 0;
    while k < pattern.len()
        invariant
            k <= pattern.len(),
            at + pattern.len() <= text.len(),
            text@.subrange(at as int, at + k) == pattern@.subrange(0, k as int),
        decreases pattern.len() - k,
    {
        if text[at + k] != pattern[k] {
            proof {
                let part = text@.subrange(at as int, at + pattern.len());
                assert(part[k as int] != pattern@[k as int]);
            }
            return false;
        }
        proof {
            let left = text@.subrange(at as int, at + k);
            let right = pattern@.subrange(0, k as int);
            assert(text@.subrange(at as int, at + k + 1) =~= left.push(text@[at + k]));
            assert(pattern@.subrange(0, k + 1) =~= right.push(pattern@[k as int]));
        }
        k += 1;
    }
    proof {
        assert(pattern@.subrange(0, pattern.len() as int) =~= pattern@);
    }
    true
}

/// A sequence is three parts in a row exactly where it has their lengths
/// together and holds each part at its place.
pub proof fn lemma_three_parts(whole: Seq<u8>, a: Seq<u8>, b: Seq<u8>, c: Seq<u8>)
    ensures
        whole == a + b + c <==> {
            &&& whole.len() == a.len() + b.len() + c.len()
            &&& has_at(whole, 0, a)
            &&& has_at(whole, a.len() as int, b)
            &&& has_at(whole, (a.len() + b.len()) as int, c)
        },
{
    let all = a + b + c;
    let la = a.len() as int;
    let lb = b.len() as int;
    let lc = c.len() as int;
    if whole == all {
        assert(whole.subrange(0, la) =~= a);
        assert(whole.subrange(la, la + lb) =~= b);
        assert(whole.subrange(la + lb, la + lb + lc) =~= c);
    }
    if whole.len() == la + lb + lc && has_at(whole, 0, a) && has_at(whole, la, b) && has_at(
        whole,
        la + lb,
        c,
    ) {
        assert forall|i: int| 0 <= i < whole.len() implies whole[i] == all[i] by {
            if i < la {
                assert(whole.subrange(0, la)[i] == whole[i]);
            } else if i < la + lb {
                assert(whole.subrange(la, la + lb)[i - la] == whole[i]);
            } else {
                assert(whole.subrange(la + lb, la + lb + lc)[i - la - lb] == whole[i]);
            }
        }
        assert(whole =~= all);
    }
}

/// Takes the armor off the text of a private key file, leaving the base64
/// text of the key with its lines joined. There is none where the text
/// opens with an armor line and the armor is incomplete, or its two lines
/// do not name the same label.
pub fn strip_armor(text: &[u8]) -> (body: Option<Vec<u8>>)
    ensures
        body is Some <==> pem_body(text@) is Some,
        body matches Some(bytes) ==> pem_body(text@) == Some(bytes@),
{
    let begin: Vec<u8> = vec![45u8, 45u8, 45u8, 45u8, 45u8, 66u8, 69u8, 71u8, 73u8, 78u8, 32u8];
    let end_opening: Vec<u8> = vec![45u8, 45u8, 45u8, 45u8, 45u8, 69u8, 78u8, 68u8, 32u8];
    let closing: Vec<u8> = vec![45u8, 45u8, 45u8, 45u8, 45u8];
    assert(begin@ =~= begin_mark());
    assert(end_opening@ =~= end_mark());
    assert(closing@ =~= dashes());
    let start = scan_forward(text, 0, text.len(), false);
    let end = scan_backward(text, start, text.len(), false);
    if !matches_at(text, start, begin.as_slice()) {
        return Some(join_lines(text, start, end));
    }
    let first_end = scan_forward(text, start, end, true);
    if first_end >= end || first_end - start < 16 {
        return None;
    }
    let last_start = scan_backward(text, first_end, end, true);
    if !matches_at(text, first_end - 5, closing.as_slice()) {
        return None;
    }
    let label_len = first_end - start - 16;
    let ghost label = text@.subrange(start + 11, first_end - 5);
    let ghost last = text@.subrange(last_start as int, end as int);
    proof {
        let n = label.len() as int;
        lemma_three_parts(last, end_mark(), label, dashes());
        if last.len() == n + 14 {
            assert(last.subrange(0, 9) =~= text@.subrange(last_start as int, last_start + 9));
            assert(last.subrange(9, 9 + n) =~= text@.subrange(last_start + 9, last_start + 9 + n));
            assert(last.subrange(9 + n, 14 + n) =~= text@.subrange(end - 5, end as int));
        }
    }
    if end - last_start != label_len + 14 {
        return None;
    }
    if !matches_at(text, last_start, end_opening.as_slice()) {
        return None;
    }
    if !same_bytes(text, last_start + 9, start + 11, label_len) {
        return None;
    }
    if !matches_at(text, end - 5, closing.as_slice()) {
        return None;
    }
    Some(join_lines(text, first_end, last_start))
}

/// Whether `der` is what the key file `text` holds: the text under its
/// armor is the unpadded base64 encoding of `der`.
pub open spec fn holds_der(text: Seq<u8>, der: Seq<u8>) -> bool {
    pem_body(text) == Some(base64_nopad(der))
}

/// Whether the key file `text` holds a private key that is accepted.
pub open spec fn holds_key(text: Seq<u8>) -> bool {
    exists|der: Seq<u8>| #[trigger] holds_der(text, der) && spec_pkcs1_accepts(der)
}

/// Reads the bytes that a private key file holds: the armor is taken off
/// and the rest is read as unpadded base64. A text with malformed armor,
/// or one that is not base64 under its armor, is refused with
/// `KeyFormatError`.
pub fn parse_pem(text: &[u8]) -> (res: Result<Vec<u8>, Error>)
    ensures
        res is Ok <==> exists|der: Seq<u8>| #[trigger] holds_der(text@, der),
        res matches Ok(der) ==> holds_der(text@, der@),
        res matches Err(e) ==> e == Error::KeyFormatError,
{
    let body = match strip_armor(text) {
        Some(body) => body,
        None => {
            return Err(Error::KeyFormatError);
        },
    };
    match base64_decode(body.as_slice()) {
        Ok(der) => {
            assert(holds_der(text@, der@));
            Ok(der)
        },
        Err(_) => Err(Error::KeyFormatError),
    }
}

impl KeyMaterial {
    /// Makes key material from the text of a private key file: its bytes
    /// are read as by `parse_pem` and loaded as by `load`. A text that is
    /// not base64 under its armor, or whose bytes are not a key, is
    /// refused with `KeyFormatError`.
    pub fn from_pem(text: &[u8], key_id: String) -> (res: Result<KeyMaterial, Error>)
        requires
            key_id@.len() > 0,
        ensures
            res is Ok <==> holds_key(text@),
            res matches Ok(key) ==> key.wf() && holds_der(text@, key.spec_der())
                && key.spec_key_id() == key_id@,
            res matches Err(e) ==> e == Error::KeyFormatError,
    {
        match parse_pem(text) {
            Ok(der) => {
                let res = KeyMaterial::load(der.as_slice(), key_id);
                proof {
                    if holds_key(text@) {
                        let other = choose|other: Seq<u8>| #[trigger]
                            holds_der(text@, other) && spec_pkcs1_accepts(other);
                        lemma_base64_nopad_injective(other, der@);
                    }
                }
                res
            },
            Err(_) => Err(Error::KeyFormatError),
        }
    }
}

/// The key identifier that a key identifier file names, given what the
/// file holds under `key_id`: that entry, unless it is missing or empty.
pub open spec fn key_id_of(entry: Option<Seq<char>>) -> Result<Seq<char>, Error> {
    match entry {
        Some(id) => if id.len() > 0 {
            Ok(id)
        } else {
            Err(Error::KeyFormatError)
        },
        None => Err(Error::KeyFormatError),
    }
}

/// Picks the key identifier from what a key identifier file holds under
/// `key_id`. A missing or empty entry is refused with `KeyFormatError`.
pub fn key_id_from_entry(entry: Option<String>) -> (res: Result<String, Error>)
    ensures
        match key_id_of(
            match entry {
                Some(id) => Some(id@),
                None => None,
            },
        ) {
            Ok(id) => res matches Ok(s) && s@ == id,
            Err(e) => res == Err::<String, Error>(e),
        },
{
    match entry {
        Some(id) => {
            if id.as_str().is_empty() {
                Err(Error::KeyFormatError)
            } else {
                Ok(id)
            }
        },
        None => Err(Error::KeyFormatError),
    }
}

/// Reads the key identifier from the text of a key identifier file: a
/// JSON object of strings with the identifier under `key_id`.
pub fn key_id_from_json(text: &str) -> (res: Result<String, Error>)
    ensures
        match key_id_of(spec_json_string_entry(text@, "key_id"@)) {
            Ok(id) => res matches Ok(s) && s@ == id,
            Err(e) => res == Err::<String, Error>(e),
        },
        res matches Ok(s) ==> s@.len() > 0,
{
    key_id_from_entry(json_string_entry(text, "key_id"))
}

} // verus!
