use vstd::prelude::*;

verus! {

/// The symbol that the standard base64 alphabet gives to the six-bit value
/// `v`: `A`-`Z`, `a`-`z`, `0`-`9`, `+`, `/`, as an ASCII byte.
pub open spec fn base64_symbol(v: int) -> u8 {
    if v < 26 {
        (65 + v) as u8
    } else if v < 52 {
        (97 + (v - 26)) as u8
    } else if v < 62 {
        (48 + (v - 52)) as u8
    } else if v == 62 {
        43u8
    } else {
        47u8
    }
}

/// The unpadded base64 encoding of `bytes` in the standard alphabet: every
/// three bytes give four symbols, a rest of one byte gives two symbols and
/// a rest of two bytes gives three, the unused low bits being zero.
pub open spec fn base64_nopad(bytes: Seq<u8>) -> Seq<u8>
    decreases bytes.len(),
{
    if bytes.len() == 0 {
        Seq::empty()
    } else if bytes.len() == 1 {
        let b0 = bytes[0] as int;
        seq![base64_symbol(b0 / 4), base64_symbol((b0 % 4) * 16)]
    } else if bytes.len() == 2 {
        let b0 = bytes[0] as int;
        let b1 = bytes[1] as int;
        seq![
            base64_symbol(b0 / 4),
            base64_symbol((b0 % 4) * 16 + b1 / 16),
            base64_symbol((b1 % 16) * 4),
        ]
    } else {
        let b0 = bytes[0] as int;
        let b1 = bytes[1] as int;
        let b2 = bytes[2] as int;
        seq![
            base64_symbol(b0 / 4),
            base64_symbol((b0 % 4) * 16 + b1 / 16),
            base64_symbol((b1 % 16) * 4 + b2 / 64),
            base64_symbol(b2 % 64),
        ] + base64_nopad(bytes.skip(3))
    }
}

/// The length of the encoding: four symbols for every three bytes, and
/// two or three symbols for a rest of one or two bytes.
pub open spec fn base64_nopad_len(n: nat) -> nat {
    4 * (n / 3) + if n % 3 == 0 {
        0nat
    } else if n % 3 == 1 {
        2nat
    } else {
        3nat
    }
}

/// Different six-bit values have different symbols.
pub proof fn lemma_symbols_differ(u: int, v: int)
    requires
        0 <= u < 64,
        0 <= v < 64,
        base64_symbol(u) == base64_symbol(v),
    ensures
        u == v,
{
}

/// The encoding of `n` bytes has `base64_nopad_len(n)` symbols.
pub proof fn lemma_base64_nopad_len(bytes: Seq<u8>)
    ensures
        base64_nopad(bytes).len() == base64_nopad_len(bytes.len()),
    decreases bytes.len(),
{
    if bytes.len() >= 3 {
        lemma_base64_nopad_len(bytes.skip(3));
    }
}

/// The encoding can be read back in one way only: byte sequences with
/// the same encoding are the same.
pub proof fn lemma_base64_nopad_injective(a: Seq<u8>, b: Seq<u8>)
    requires
        base64_nopad(a) == base64_nopad(b),
    ensures
        a == b,
    decreases a.len(),
{
    lemma_base64_nopad_len(a);
    lemma_base64_nopad_len(b);
    assert(a.len() == b.len());
    let ea = base64_nopad(a);
    let eb = base64_nopad(b);
    if a.len() == 0 {
        assert(a =~= b);
    } else if a.len() == 1 {
        let (a0, b0) = (a[0] as int, b[0] as int);
        lemma_symbols_differ(a0 / 4, b0 / 4);
        lemma_symbols_differ((a0 % 4) * 16, (b0 % 4) * 16);
    } else if a.len() == 2 {
        let (a0, b0) = (a[0] as int, b[0] as int);
        let (a1, b1) = (a[1] as int, b[1] as int);
        lemma_symbols_differ(a0 / 4, b0 / 4);
        lemma_symbols_differ((a0 % 4) * 16 + a1 / 16, (b0 % 4) * 16 + b1 / 16);
        lemma_symbols_differ((a1 % 16) * 4, (b1 % 16) * 4);
    } else {
        let (a0, b0) = (a[0] as int, b[0] as int);
        let (a1, b1) = (a[1] as int, b[1] as int);
        let (a2, b2) = (a[2] as int, b[2] as int);
        let ra = base64_nopad(a.skip(3));
        let rb = base64_nopad(b.skip(3));
        assert(ea[0] == eb[0] && ea[1] == eb[1] && ea[2] == eb[2] && ea[3] == eb[3]);
        lemma_symbols_differ(a0 / 4, b0 / 4);
        lemma_symbols_differ((a0 % 4) * 16 + a1 / 16, (b0 % 4) * 16 + b1 / 16);
        lemma_symbols_differ((a1 % 16) * 4 + a2 / 64, (b1 % 16) * 4 + b2 / 64);
        lemma_symbols_differ(a2 % 64, b2 % 64);
        assert(ra =~= ea.skip(4));
        assert(rb =~= eb.skip(4));
        lemma_base64_nopad_injective(a.skip(3), b.skip(3));
        assert forall|i: int| 0 <= i < a.len() implies a[i] == b[i] by {
            if i >= 3 {
                assert(a[i] == a.skip(3)[i - 3]);
                assert(b[i] == b.skip(3)[i - 3]);
            }
        }
    }
}

/// ASCII bytes read as characters, one for one.
pub open spec fn ascii_text(bytes: Seq<u8>) -> Seq<char> {
    Seq::new(bytes.len(), |i: int| bytes[i] as char)
}

#[verifier::external_type_specification]
#[verifier::external_body]
pub struct ExDecodeError(base64::DecodeError);

/// `Engine::encode` of the base64 crate, on its `STANDARD_NO_PAD` engine.
///
/// Trusted: the text returned is the unpadded standard-alphabet encoding of
/// the input, as `base64_nopad` writes it out. The crate panics only when the
/// encoded length overflows `usize`, which no slice in memory reaches.
#[verifier::external_body]
pub(crate) fn base64_encode(bytes: &[u8]) -> (text: String)
    ensures
        text@ == ascii_text(base64_nopad(bytes@)),
{
    base64::Engine::encode(&base64::engine::general_purpose::STANDARD_NO_PAD, bytes)
}

/// `Engine::decode` of the base64 crate, on its `STANDARD_NO_PAD` engine.
///
/// Trusted: the engine accepts exactly the canonical unpadded encodings
/// (standard alphabet, no padding, no stray trailing bits) and returns the
/// bytes that encode to the input; every other input is an error.
#[verifier::external_body]
pub(crate) fn base64_decode(text: &[u8]) -> (res: Result<Vec<u8>, base64::DecodeError>)
    ensures
        res matches Ok(bytes) ==> base64_nopad(bytes@) == text@,
        res is Err ==> forall|bytes: Seq<u8>| #[trigger] base64_nopad(bytes) != text@,
{
    base64::Engine::decode(&base64::engine::general_purpose::STANDARD_NO_PAD, text)
}

} // verus!
