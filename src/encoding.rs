//! Base64 (standard alphabet, with padding) of image data.
use base64::Engine;
use vstd::prelude::*;

verus! {

/// The character of the standard base64 alphabet for a six-bit value.
pub open spec fn base64_symbol(v: int) -> char {
    if v < 26 {
        (65 + v) as char
    } else if v < 52 {
        (97 + (v - 26)) as char
    } else if v < 62 {
        (48 + (v - 52)) as char
    } else if v == 62 {
        '+'
    } else {
        '/'
    }
}

/// Standard base64 with padding: each group of three bytes becomes four
/// symbols, and a final group of one or two bytes is padded with `=`.
pub open spec fn base64_of(b: Seq<u8>) -> Seq<char>
    decreases b.len(),
{
    if b.len() == 0 {
        seq![]
    } else if b.len() == 1 {
        seq![
            base64_symbol(b[0] as int / 4),
            base64_symbol((b[0] as int % 4) * 16),
            '=',
            '=',
        ]
    } else if b.len() == 2 {
        seq![
            base64_symbol(b[0] as int / 4),
            base64_symbol((b[0] as int % 4) * 16 + b[1] as int / 16),
            base64_symbol((b[1] as int % 16) * 4),
            '=',
        ]
    } else {
        seq![
            base64_symbol(b[0] as int / 4),
            base64_symbol((b[0] as int % 4) * 16 + b[1] as int / 16),
            base64_symbol((b[1] as int % 16) * 4 + b[2] as int / 64),
            base64_symbol(b[2] as int % 64),
        ] + base64_of(b.subrange(3, b.len() as int))
    }
}

/// The base64 text of `n` bytes has a length that fits in a `usize`.
pub open spec fn encoded_len_fits(n: nat) -> bool {
    4 * ((n + 2) / 3) <= usize::MAX
}

/// Whether `s` is the base64 text of some byte sequence.
pub open spec fn is_base64(s: Seq<char>) -> bool {
    exists|b: Seq<u8>| base64_of(b) == s
}

proof fn lemma_symbol(v: int, w: int)
    requires
        0 <= v < 64,
        0 <= w < 64,
    ensures
        base64_symbol(v) != '=',
        base64_symbol(v) == base64_symbol(w) ==> v == w,
{
}

/// Distinct byte sequences have distinct base64 texts, so decoding the
/// encoding of `a` can only give back `a`.
pub proof fn lemma_base64_injective(a: Seq<u8>, b: Seq<u8>)
    requires
        base64_of(a) == base64_of(b),
    ensures
        a == b,
    decreases a.len(),
{
    let ea = base64_of(a);
    let eb = base64_of(b);
    if a.len() == 0 || b.len() == 0 {
        if a.len() != 0 {
            assert(ea.len() >= 4);
        }
        if b.len() != 0 {
            assert(eb.len() >= 4);
        }
        assert(a =~= b);
    } else {
        let a0 = a[0] as int;
        let b0 = b[0] as int;
        lemma_symbol(a0 / 4, b0 / 4);
        assert(ea[0] == eb[0]);
        let a1 = if a.len() >= 2 { a[1] as int } else { 0 };
        let b1 = if b.len() >= 2 { b[1] as int } else { 0 };
        let a2 = if a.len() >= 3 { a[2] as int } else { 0 };
        let b2 = if b.len() >= 3 { b[2] as int } else { 0 };
        lemma_symbol((a0 % 4) * 16 + a1 / 16, (b0 % 4) * 16 + b1 / 16);
        lemma_symbol((a1 % 16) * 4 + a2 / 64, (b1 % 16) * 4 + b2 / 64);
        lemma_symbol(a2 % 64, b2 % 64);
        assert(ea[1] == eb[1]);
        assert(ea[2] == eb[2]);
        assert(ea[3] == eb[3]);
        assert(a.len() >= 2 <==> b.len() >= 2);
        assert(a.len() >= 3 <==> b.len() >= 3);
        assert(a0 == b0);
        assert(a1 == b1);
        assert(a2 == b2);
        if a.len() >= 3 {
            let ra = a.subrange(3, a.len() as int);
            let rb = b.subrange(3, b.len() as int);
            assert(base64_of(ra) =~= ea.subrange(4, ea.len() as int));
            assert(base64_of(rb) =~= eb.subrange(4, eb.len() as int));
            lemma_base64_injective(ra, rb);
            assert(a =~= seq![a[0], a[1], a[2]] + ra);
            assert(b =~= seq![b[0], b[1], b[2]] + rb);
        } else {
            assert(a =~= b);
        }
    }
}

/// Relies on base64's `STANDARD` engine: `encode` gives the standard
/// alphabet with padding. It panics where the text's length overflows.
#[verifier::external_body]
fn standard_encode(data: &[u8]) -> (r: String)
    requires
        encoded_len_fits(data@.len()),
    ensures
        r@ == base64_of(data@),
{
    base64::engine::general_purpose::STANDARD.encode(data)
}

/// Relies on base64's `STANDARD` engine: `decode` requires canonical padding
/// and zero trailing bits, so it accepts exactly the texts that `encode`
/// produces and gives back the bytes they encode.
#[verifier::external_body]
fn standard_decode(text: &str) -> (r: Option<Vec<u8>>)
    ensures
        match r {
            Some(v) => base64_of(v@) == text@,
            None => !is_base64(text@),
        },
{
    base64::engine::general_purpose::STANDARD.decode(text).ok()
}

/// The base64 text of `data`.
pub fn encode_base64(data: &[u8]) -> (r: String)
    requires
        encoded_len_fits(data@.len()),
    ensures
        r@ == base64_of(data@),
{
    standard_encode(data)
}

/// The bytes whose base64 text is `text`, or `None` where `text` is the
/// base64 text of no byte sequence.
pub fn decode_base64(text: &str) -> (r: Option<Vec<u8>>)
    ensures
        match r {
            Some(v) => base64_of(v@) == text@,
            None => !is_base64(text@),
        },
{
    standard_decode(text)
}

/// Decoding undoes encoding: the only bytes whose text is the encoding of
/// `data` are `data` themselves, and that text always decodes.
pub proof fn lemma_decode_encode(data: Seq<u8>, decoded: Seq<u8>)
    requires
        base64_of(decoded) == base64_of(data),
    ensures
        decoded == data,
        is_base64(base64_of(data)),
{
    lemma_base64_injective(decoded, data);
}

} // verus!
