//! Hexadecimal and Base64 renderings of bytes.
use base64::Engine;
use vstd::prelude::*;

verus! {

/// The upper-case hexadecimal digit of a value below 16.
pub open spec fn hex_digit(v: nat) -> char {
    if v < 10 {
        crate::text::digit_char(v)
    } else {
        (55 + v) as char
    }
}

/// The upper-case hexadecimal text of `bytes`, two digits a byte.
pub open spec fn hex_text(bytes: Seq<u8>) -> Seq<char> {
    Seq::new(
        2 * bytes.len(),
        |i: int|
            hex_digit(
                if i % 2 == 0 {
                    bytes[i / 2] as nat / 16
                } else {
                    bytes[i / 2] as nat % 16
                },
            ),
    )
}

fn push_hex_digit(out: &mut String, v: u8)
    requires
        v < 16,
    ensures
        final(out)@ == old(out)@.push(hex_digit(v as nat)),
{
    if v < 10 {
        out.push((48 + v) as char);
    } else {
        out.push((55 + v) as char);
    }
}

/// Formats a digest as upper-case hexadecimal.
pub fn hex_upper(digest: &[u8]) -> (out: String)
    ensures
        out@ == hex_text(digest@),
        out@.len() == 2 * digest@.len(),
        forall|i: int|
            0 <= i < digest@.len() ==> out@[2 * i] == "0123456789ABCDEF"@[(#[trigger] digest@[i])
                as int / 16] && out@[2 * i + 1] == "0123456789ABCDEF"@[digest@[i] as int % 16],
{
    let mut out = String::new();
    let mut i: usize = 0;
    while i < digest.len()
        invariant
            i <= digest.len(),
            out@ == hex_text(digest@.take(i as int)),
        decreases digest.len() - i,
    {
        let byte: u8 = digest[i];
        push_hex_digit(&mut out, byte / 16);
        push_hex_digit(&mut out, byte % 16);
        i = i + 1;
        assert(out@ =~= hex_text(digest@.take(i as int)));
    }
    assert(digest@.take(i as int) =~= digest@);
    proof {
        assert forall|i: int| 0 <= i < digest@.len() implies out@[2 * i]
            == "0123456789ABCDEF"@[(#[trigger] digest@[i]) as int / 16] && out@[2 * i + 1]
            == "0123456789ABCDEF"@[digest@[i] as int % 16] by {
            law_hex_digits_of_bytes(digest@, i);
        }
    }
    out
}

/// Different bytes have different hexadecimal texts.
pub proof fn law_hex_text_is_injective(a: Seq<u8>, b: Seq<u8>)
    requires
        hex_text(a) == hex_text(b),
    ensures
        a == b,
{
    assert(hex_text(a).len() == 2 * a.len());
    assert(hex_text(b).len() == 2 * b.len());
    assert forall|i: int| 0 <= i < a.len() implies a[i] == b[i] by {
        lemma_hex_pair(a, i);
        lemma_hex_pair(b, i);
        lemma_hex_digit_is_injective(a[i] as nat / 16, b[i] as nat / 16);
        lemma_hex_digit_is_injective(a[i] as nat % 16, b[i] as nat % 16);
    }
    assert(a =~= b);
}

/// The two digits of one byte of a hexadecimal text.
proof fn lemma_hex_pair(bytes: Seq<u8>, i: int)
    requires
        0 <= i < bytes.len(),
    ensures
        hex_text(bytes)[2 * i] == hex_digit(bytes[i] as nat / 16),
        hex_text(bytes)[2 * i + 1] == hex_digit(bytes[i] as nat % 16),
{
    assert((2 * i) % 2 == 0 && (2 * i) / 2 == i);
    assert((2 * i + 1) % 2 == 1 && (2 * i + 1) / 2 == i);
}

/// The digits of different values differ.
proof fn lemma_hex_digit_is_injective(v: nat, w: nat)
    requires
        v < 16,
        w < 16,
        hex_digit(v) == hex_digit(w),
    ensures
        v == w,
{
}

/// The character of a six-bit value in the standard Base64 alphabet.
pub open spec fn base64_char(v: nat) -> char {
    if v < 26 {
        (65 + v) as char
    } else if v < 52 {
        (71 + v) as char
    } else if v < 62 {
        crate::text::digit_char((v - 52) as nat)
    } else if v == 62 {
        '+'
    } else {
        '/'
    }
}

/// The padded Base64 text of `data` in the standard alphabet of RFC 4648:
/// each three bytes are four characters, a rest is filled up with `=`.
pub open spec fn base64_text(data: Seq<u8>) -> Seq<char>
    decreases data.len(),
{
    let b0 = data[0] as nat;
    let b1 = data[1] as nat;
    let b2 = data[2] as nat;
    if data.len() == 0 {
        seq![]
    } else if data.len() == 1 {
        seq![base64_char(b0 / 4), base64_char(b0 % 4 * 16), '=', '=']
    } else if data.len() == 2 {
        seq![
            base64_char(b0 / 4),
            base64_char(b0 % 4 * 16 + b1 / 16),
            base64_char(b1 % 16 * 4),
            '=',
        ]
    } else {
        seq![
            base64_char(b0 / 4),
            base64_char(b0 % 4 * 16 + b1 / 16),
            base64_char(b1 % 16 * 4 + b2 / 64),
            base64_char(b2 % 64),
        ] + base64_text(data.skip(3))
    }
}

/// The length of the Base64 text of `n` bytes.
pub open spec fn base64_len(n: nat) -> nat {
    (n + 2) / 3 * 4
}

/// `base64`'s `Engine::encode` with the `STANDARD` engine: the padded text in
/// the standard alphabet of RFC 4648.
///
/// It allocates the whole text at once, which fails where the text is longer
/// than `isize::MAX`.
#[verifier::external_body]
pub(crate) fn base64_encode(data: &[u8]) -> (text: String)
    requires
        base64_len(data@.len()) <= isize::MAX,
    ensures
        text@ == base64_text(data@),
{
    base64::engine::general_purpose::STANDARD.encode(data)
}

/// The characters that a Base64 text is made of.
pub open spec fn is_base64_char(c: char) -> bool {
    'A' <= c <= 'Z' || 'a' <= c <= 'z' || '0' <= c <= '9' || c == '+' || c == '/' || c == '='
}

/// The alphabet's characters are letters, digits, `+` and `/`, one for each
/// six-bit value.
proof fn lemma_base64_char(v: nat, w: nat)
    requires
        v < 64,
        w < 64,
    ensures
        is_base64_char(base64_char(v)),
        base64_char(v) != '=',
        base64_char(v) == base64_char(w) <==> v == w,
{
}

/// The characters of the first group of a Base64 text.
proof fn lemma_base64_first_group(data: Seq<u8>)
    requires
        data.len() > 0,
    ensures
        ({
            let t = base64_text(data);
            let b0 = data[0] as nat;
            let b1 = if data.len() >= 2 { data[1] as nat } else { 0 };
            let b2 = if data.len() >= 3 { data[2] as nat } else { 0 };
            &&& t.len() >= 4
            &&& t[0] == base64_char(b0 / 4)
            &&& t[1] == base64_char(b0 % 4 * 16 + b1 / 16)
            &&& t[2] == if data.len() >= 2 { base64_char(b1 % 16 * 4 + b2 / 64) } else { '=' }
            &&& t[3] == if data.len() >= 3 { base64_char(b2 % 64) } else { '=' }
            &&& t.skip(4) == if data.len() >= 3 { base64_text(data.skip(3)) } else { seq![] }
        }),
{
    let t = base64_text(data);
    if data.len() >= 3 {
        assert(t.skip(4) =~= base64_text(data.skip(3)));
    } else {
        assert(t.skip(4) =~= seq![]);
    }
}

/// A Base64 text is made of letters, digits, `+`, `/` and `=`.
pub proof fn lemma_base64_chars(data: Seq<u8>)
    ensures
        forall|i: int|
            0 <= i < base64_text(data).len() ==> is_base64_char(#[trigger] base64_text(data)[i]),
    decreases data.len(),
{
    if data.len() > 0 {
        let t = base64_text(data);
        let b0 = data[0] as nat;
        let b1 = if data.len() >= 2 { data[1] as nat } else { 0 };
        let b2 = if data.len() >= 3 { data[2] as nat } else { 0 };
        lemma_base64_first_group(data);
        lemma_base64_char(b0 / 4, 0);
        lemma_base64_char(b0 % 4 * 16 + b1 / 16, 0);
        lemma_base64_char(b1 % 16 * 4 + b2 / 64, 0);
        lemma_base64_char(b2 % 64, 0);
        if data.len() >= 3 {
            lemma_base64_chars(data.skip(3));
        }
        assert forall|i: int| 0 <= i < t.len() implies is_base64_char(#[trigger] t[i]) by {
            if i >= 4 {
                assert(t[i] == t.skip(4)[i - 4]);
            }
        }
    }
}

/// Different bytes have different Base64 texts.
pub proof fn law_base64_text_is_injective(a: Seq<u8>, b: Seq<u8>)
    requires
        base64_text(a) == base64_text(b),
    ensures
        a == b,
    decreases a.len(),
{
    if a.len() == 0 {
        if b.len() > 0 {
            lemma_base64_first_group(b);
        }
    } else if b.len() == 0 {
        lemma_base64_first_group(a);
    } else {
        let a0 = a[0] as nat;
        let a1 = if a.len() >= 2 { a[1] as nat } else { 0 };
        let a2 = if a.len() >= 3 { a[2] as nat } else { 0 };
        let b0 = b[0] as nat;
        let b1 = if b.len() >= 2 { b[1] as nat } else { 0 };
        let b2 = if b.len() >= 3 { b[2] as nat } else { 0 };
        lemma_base64_first_group(a);
        lemma_base64_first_group(b);
        lemma_base64_char(a0 / 4, b0 / 4);
        lemma_base64_char(a0 % 4 * 16 + a1 / 16, b0 % 4 * 16 + b1 / 16);
        lemma_base64_char(a1 % 16 * 4 + a2 / 64, b1 % 16 * 4 + b2 / 64);
        lemma_base64_char(b1 % 16 * 4 + b2 / 64, 0);
        lemma_base64_char(a2 % 64, b2 % 64);
        lemma_base64_char(b2 % 64, 0);
        assert(a0 == b0);
        if a.len() >= 3 {
            assert(b.len() >= 3);
            law_base64_text_is_injective(a.skip(3), b.skip(3));
            assert forall|i: int| 0 <= i < a.len() implies a[i] == b[i] by {
                if i >= 3 {
                    assert(a[i] == a.skip(3)[i - 3]);
                    assert(b[i] == b.skip(3)[i - 3]);
                }
            }
            assert(a.skip(3).len() == b.skip(3).len());
        }
    }
    assert(a =~= b);
}

/// Hexadecimal writes each byte as two digits of `0` to `9` and `A` to `F`, the
/// upper four bits first.
pub proof fn law_hex_digits_of_bytes(bytes: Seq<u8>, i: int)
    requires
        0 <= i < bytes.len(),
    ensures
        hex_text(bytes).len() == 2 * bytes.len(),
        hex_text(bytes)[2 * i] == "0123456789ABCDEF"@[bytes[i] as int / 16],
        hex_text(bytes)[2 * i + 1] == "0123456789ABCDEF"@[bytes[i] as int % 16],
{
    reveal_strlit("0123456789ABCDEF");
    lemma_hex_pair(bytes, i);
}

}
