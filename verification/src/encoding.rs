//! Standard Base64 (RFC 4648 alphabet, '=' padding), as notebook payloads are
//! exchanged with the service.
use vstd::prelude::*;
use base64::Engine;

verus! {

/// The character of a 6-bit value in the standard alphabet.
pub open spec fn b64_char(v: int) -> char {
    if v < 26 {
        (65 + v) as char
    } else if v < 52 {
        (97 + v - 26) as char
    } else if v < 62 {
        (48 + v - 52) as char
    } else if v == 62 {
        '+'
    } else {
        '/'
    }
}

/// Standard Base64 encoding with padding: each group of three bytes becomes four
/// characters; a final group of one or two bytes is padded with '='.
pub open spec fn b64_encode(b: Seq<u8>) -> Seq<char>
    decreases b.len(),
{
    if b.len() == 0 {
        seq![]
    } else if b.len() == 1 {
        seq![b64_char(b[0] as int / 4), b64_char((b[0] as int % 4) * 16), '=', '=']
    } else if b.len() == 2 {
        seq![
            b64_char(b[0] as int / 4),
            b64_char((b[0] as int % 4) * 16 + b[1] as int / 16),
            b64_char((b[1] as int % 16) * 4),
            '=',
        ]
    } else {
        seq![
            b64_char(b[0] as int / 4),
            b64_char((b[0] as int % 4) * 16 + b[1] as int / 16),
            b64_char((b[1] as int % 16) * 4 + b[2] as int / 64),
            b64_char(b[2] as int % 64),
        ] + b64_encode(b.subrange(3, b.len() as int))
    }
}

#[verifier::external_type_specification]
#[verifier::external_body]
pub struct ExDecodeError(base64::DecodeError);

/// `base64::engine::general_purpose::STANDARD.encode`: the standard engine pads, so
/// its output is `b64_encode` of the input.
#[verifier::external_body]
pub(crate) fn base64_encode(bytes: &[u8]) -> (r: String)
    ensures
        r@ == b64_encode(bytes@),
{
    base64::engine::general_purpose::STANDARD.encode(bytes)
}

/// `base64::engine::general_purpose::STANDARD.decode`. The standard engine requires
/// canonical padding and rejects set trailing bits, so it accepts exactly the
/// strings that encoding produces, and gives back the encoded bytes.
#[verifier::external_body]
pub(crate) fn base64_decode(text: &str) -> (r: Result<Vec<u8>, base64::DecodeError>)
    ensures
        r is Ok ==> b64_encode(r->Ok_0@) == text@,
        forall|b: Seq<u8>| #[trigger] b64_encode(b) == text@ ==> r is Ok && r->Ok_0@ == b,
{
    base64::engine::general_purpose::STANDARD.decode(text)
}

proof fn lemma_b64_char_injective(v: int, w: int)
    requires
        0 <= v < 64,
        0 <= w < 64,
        b64_char(v) == b64_char(w),
    ensures
        v == w,
{
    broadcast use vstd::utf8::char_u32_cast;

}

proof fn lemma_b64_char_not_pad(v: int)
    requires
        0 <= v < 64,
    ensures
        b64_char(v) != '=',
{
}

proof fn lemma_three_bytes(x0: int, x1: int, x2: int, y0: int, y1: int, y2: int)
    by (nonlinear_arith)
    requires
        0 <= x0 < 256,
        0 <= x1 < 256,
        0 <= x2 < 256,
        0 <= y0 < 256,
        0 <= y1 < 256,
        0 <= y2 < 256,
        x0 / 4 == y0 / 4,
        (x0 % 4) * 16 + x1 / 16 == (y0 % 4) * 16 + y1 / 16,
        (x1 % 16) * 4 + x2 / 64 == (y1 % 16) * 4 + y2 / 64,
        x2 % 64 == y2 % 64,
    ensures
        x0 == y0,
        x1 == y1,
        x2 == y2,
{
}

/// Distinct byte strings have distinct encodings, so decoding (which inverts
/// encoding) is well defined: `decode(encode(b)) == b` for every `b`.
pub proof fn law_base64_encoding_injective(a: Seq<u8>, b: Seq<u8>)
    requires
        b64_encode(a) == b64_encode(b),
    ensures
        a == b,
    decreases a.len(),
{
    let ea = b64_encode(a);
    let eb = b64_encode(b);
    if a.len() == 0 {
        if b.len() > 0 {
            assert(eb.len() > 0);
        }
        assert(a =~= b);
    } else {
        assert(ea.len() >= 4);
        if b.len() == 0 {
            assert(eb.len() == 0);
        }
        assert(ea[0] == eb[0] && ea[1] == eb[1] && ea[2] == eb[2] && ea[3] == eb[3]);
        lemma_b64_char_injective(a[0] as int / 4, b[0] as int / 4);
        if a.len() == 1 {
            if b.len() >= 2 {
                lemma_b64_char_not_pad((b[1] as int % 16) * 4 + if b.len() >= 3 { b[2] as int / 64 } else { 0 });
            }
            lemma_b64_char_injective((a[0] as int % 4) * 16, (b[0] as int % 4) * 16);
            assert(a =~= b);
        } else if a.len() == 2 {
            if b.len() == 1 {
                lemma_b64_char_not_pad((a[1] as int % 16) * 4);
            }
            if b.len() >= 3 {
                lemma_b64_char_not_pad(b[2] as int % 64);
            }
            lemma_b64_char_injective((a[0] as int % 4) * 16 + a[1] as int / 16, (b[0] as int % 4) * 16 + b[1] as int / 16);
            lemma_b64_char_injective((a[1] as int % 16) * 4, (b[1] as int % 16) * 4);
            assert(a =~= b);
        } else {
            if b.len() == 1 {
                lemma_b64_char_not_pad((a[1] as int % 16) * 4 + a[2] as int / 64);
            }
            if b.len() == 2 {
                lemma_b64_char_not_pad(a[2] as int % 64);
            }
            lemma_b64_char_injective((a[0] as int % 4) * 16 + a[1] as int / 16, (b[0] as int % 4) * 16 + b[1] as int / 16);
            lemma_b64_char_injective((a[1] as int % 16) * 4 + a[2] as int / 64, (b[1] as int % 16) * 4 + b[2] as int / 64);
            lemma_b64_char_injective(a[2] as int % 64, b[2] as int % 64);
            let ta = a.subrange(3, a.len() as int);
            let tb = b.subrange(3, b.len() as int);
            assert(ea.subrange(4, ea.len() as int) =~= b64_encode(ta));
            assert(eb.subrange(4, eb.len() as int) =~= b64_encode(tb));
            law_base64_encoding_injective(ta, tb);
            lemma_three_bytes(
                a[0] as int,
                a[1] as int,
                a[2] as int,
                b[0] as int,
                b[1] as int,
                b[2] as int,
            );
            assert forall|i: int| 0 <= i < a.len() implies a[i] == b[i] by {
                if i >= 3 {
                    assert(a[i] == ta[i - 3]);
                    assert(b[i] == tb[i - 3]);
                }
            }
            assert(a =~= b);
        }
    }
}

} // verus!
