//! Text encodings of binary data used by the server: unpadded base64url for
//! credential identifiers, lowercase hex for session tokens, and the
//! hyphenated form of UUIDs.

use vstd::prelude::*;

verus! {

/// The character of the base64url alphabet (RFC 4648, section 5) that stands
/// for the six-bit value `v`.
pub open spec fn sextet_char(v: int) -> char {
    if v < 26 {
        (65 + v) as char
    } else if v < 52 {
        (97 + (v - 26)) as char
    } else if v < 62 {
        (48 + (v - 52)) as char
    } else if v == 62 {
        '-'
    } else {
        '_'
    }
}

/// The characters that encode one group of at most three bytes, `g`, without
/// padding: two characters for one byte, three for two, four for three.
pub open spec fn group_chars(g: Seq<u8>) -> Seq<char> {
    let b0 = g[0] as int;
    let b1 = if g.len() > 1 { g[1] as int } else { 0 };
    let b2 = if g.len() > 2 { g[2] as int } else { 0 };
    seq![sextet_char(b0 / 4), sextet_char((b0 % 4) * 16 + b1 / 16)]
        + (if g.len() > 1 { seq![sextet_char((b1 % 16) * 4 + b2 / 64)] } else { Seq::empty() })
        + (if g.len() > 2 { seq![sextet_char(b2 % 64)] } else { Seq::empty() })
}

/// Unpadded base64url encoding of `data`: each group of three bytes (the last
/// group may be shorter) becomes the characters of `group_chars`.
pub open spec fn base64url(data: Seq<u8>) -> Seq<char>
    decreases data.len(),
{
    if data.len() == 0 {
        Seq::empty()
    } else if data.len() <= 3 {
        group_chars(data)
    } else {
        group_chars(data.take(3)) + base64url(data.skip(3))
    }
}

/// Appends one character to a string (std `String::push`).
#[verifier::external_body]
pub(crate) fn push_char(s: &mut String, c: char)
    ensures
        final(s)@ == old(s)@.push(c),
{
    s.push(c);
}

fn sextet_to_char(v: u32) -> (c: char)
    requires
        v < 64,
    ensures
        c == sextet_char(v as int),
{
    if v < 26 {
        ((65 + v) as u8) as char
    } else if v < 52 {
        ((97 + (v - 26)) as u8) as char
    } else if v < 62 {
        ((48 + (v - 52)) as u8) as char
    } else if v == 62 {
        '-'
    } else {
        '_'
    }
}

/// Base64url-encode bytes, without padding.
pub fn base64url_encode_bytes(data: &[u8]) -> (r: String)
    ensures
        r@ == base64url(data@),
{
    let n = data.len();
    let mut res = String::new();
    let mut i: usize = 0;
    assert(data@.skip(0) =~= data@);
    while i < n
        invariant
            i <= n,
            n == data@.len(),
            base64url(data@) == res@ + base64url(data@.skip(i as int)),
        decreases n - i,
    {
        let ghost rest = data@.skip(i as int);
        let b0 = data[i] as u32;
        let b1 = if n - i > 1 { data[i + 1] as u32 } else { 0 };
        let b2 = if n - i > 2 { data[i + 2] as u32 } else { 0 };
        let triple: u32 = (b0 << 16) | (b1 << 8) | b2;
        assert(((triple >> 18) & 0x3F) == b0 / 4 && ((triple >> 12) & 0x3F) == (b0 % 4) * 16 + b1 / 16
            && ((triple >> 6) & 0x3F) == (b1 % 16) * 4 + b2 / 64 && (triple & 0x3F) == b2 % 64)
            by (bit_vector)
            requires
                b0 < 256 && b1 < 256 && b2 < 256,
                triple == (b0 << 16) | (b1 << 8) | b2,
        ;
        let ghost g = if rest.len() <= 3 { rest } else { rest.take(3) };
        assert(g.len() >= 1 && g[0] == b0 && (g.len() > 1 ==> g[1] == b1) && (g.len() > 2 ==> g[2] == b2));
        assert(g.len() <= 1 ==> b1 == 0);
        assert(g.len() <= 2 ==> b2 == 0);
        let ghost before = res@;
        push_char(&mut res, sextet_to_char((triple >> 18) & 0x3F));
        push_char(&mut res, sextet_to_char((triple >> 12) & 0x3F));
        if n - i > 1 {
            push_char(&mut res, sextet_to_char((triple >> 6) & 0x3F));
        }
        if n - i > 2 {
            push_char(&mut res, sextet_to_char(triple & 0x3F));
        }
        assert(res@ =~= before + group_chars(g));
        if n - i > 3 {
            assert(rest.skip(3) =~= data@.skip(i + 3));
            i = i + 3;
        } else {
            assert(data@.skip(n as int) =~= Seq::<u8>::empty());
            i = n;
        }
    }
    res
}

/// The lowercase hex digit for the four-bit value `v`.
pub open spec fn hex_digit(v: int) -> char {
    if v < 10 {
        (48 + v) as char
    } else {
        (87 + v) as char
    }
}

/// Lowercase hex encoding of `data`: two digits per byte, high nibble first.
pub open spec fn hex_lower(data: Seq<u8>) -> Seq<char>
    decreases data.len(),
{
    if data.len() == 0 {
        Seq::empty()
    } else {
        seq![hex_digit(data[0] as int / 16), hex_digit(data[0] as int % 16)] + hex_lower(
            data.drop_first(),
        )
    }
}

/// Lowercase hex encoding of `data` (`hex::encode`).
#[verifier::external_body]
pub(crate) fn hex_encode(data: &[u8]) -> (r: String)
    ensures
        r@ == hex_lower(data@),
{
    hex::encode(data)
}

/// 256 to the power `k`.
pub open spec fn pow256(k: nat) -> int
    decreases k,
{
    if k == 0 {
        1
    } else {
        256 * pow256((k - 1) as nat)
    }
}

/// The sixteen bytes of `v`, most significant first.
pub open spec fn be_bytes(v: u128) -> Seq<u8> {
    Seq::new(16, |i: int| ((v as int / pow256((15 - i) as nat)) % 256) as u8)
}

/// The hyphenated lowercase text of the UUID whose 128 bits are `id`:
/// 32 hex digits of its bytes, most significant first, in groups of
/// 8, 4, 4, 4 and 12 separated by hyphens.
pub open spec fn uuid_text(id: u128) -> Seq<char> {
    let h = hex_lower(be_bytes(id));
    h.subrange(0, 8) + seq!['-'] + h.subrange(8, 12) + seq!['-'] + h.subrange(12, 16) + seq!['-']
        + h.subrange(16, 20) + seq!['-'] + h.subrange(20, 32)
}

/// The hyphenated text of the UUID with bits `id` (`uuid::Uuid::from_u128`,
/// then its `Display` form).
#[verifier::external_body]
pub(crate) fn uuid_to_string(id: u128) -> (r: String)
    ensures
        r@ == uuid_text(id),
{
    uuid::Uuid::from_u128(id).to_string()
}

/// Whether `c` is in the base64url alphabet: `A`-`Z`, `a`-`z`, `0`-`9`,
/// `-` and `_`.
pub open spec fn is_base64url_char(c: char) -> bool {
    let u = c as u32;
    ||| 65 <= u <= 90
    ||| 97 <= u <= 122
    ||| 48 <= u <= 57
    ||| c == '-'
    ||| c == '_'
}

proof fn lemma_sextet_char_in_alphabet(v: int)
    requires
        0 <= v < 64,
    ensures
        is_base64url_char(sextet_char(v)),
{
}

proof fn lemma_group_chars(g: Seq<u8>)
    requires
        1 <= g.len() <= 3,
    ensures
        group_chars(g).len() == g.len() + 1,
        forall|i: int| 0 <= i < group_chars(g).len() ==> is_base64url_char(#[trigger] group_chars(g)[i]),
{
    let b0 = g[0] as int;
    let b1 = if g.len() > 1 { g[1] as int } else { 0 };
    let b2 = if g.len() > 2 { g[2] as int } else { 0 };
    lemma_sextet_char_in_alphabet(b0 / 4);
    lemma_sextet_char_in_alphabet((b0 % 4) * 16 + b1 / 16);
    lemma_sextet_char_in_alphabet((b1 % 16) * 4 + b2 / 64);
    lemma_sextet_char_in_alphabet(b2 % 64);
}

/// Unpadded base64url output has `ceil(4n/3)` characters for `n` bytes (the
/// exact capacity `(4n + 2) / 3` reserved for it), all from the URL-safe
/// alphabet: no padding and no `+` or `/`.
pub proof fn lemma_base64url_shape(data: Seq<u8>)
    ensures
        base64url(data).len() == (4 * data.len() + 2) / 3,
        forall|i: int| 0 <= i < base64url(data).len() ==> is_base64url_char(#[trigger] base64url(data)[i]),
    decreases data.len(),
{
    if data.len() == 0 {
    } else if data.len() <= 3 {
        lemma_group_chars(data);
    } else {
        lemma_base64url_shape(data.skip(3));
        lemma_group_chars(data.take(3));
        let a = group_chars(data.take(3));
        let b = base64url(data.skip(3));
        assert forall|i: int| 0 <= i < (a + b).len() implies is_base64url_char(#[trigger] (a + b)[i]) by {
            if i < a.len() {
                assert((a + b)[i] == a[i]);
            } else {
                assert((a + b)[i] == b[i - a.len()]);
            }
        }
    }
}

proof fn lemma_sextet_char_injective(v: int, w: int)
    requires
        0 <= v < 64,
        0 <= w < 64,
        sextet_char(v) == sextet_char(w),
    ensures
        v == w,
{
    assert(sextet_char(v) as u32 == sextet_char(w) as u32);
}

proof fn lemma_group_chars_injective(g: Seq<u8>, h: Seq<u8>)
    requires
        1 <= g.len() <= 3,
        g.len() == h.len(),
        group_chars(g) == group_chars(h),
    ensures
        g == h,
{
    let b0 = g[0];
    let b1: u8 = if g.len() > 1 { g[1] } else { 0 };
    let b2: u8 = if g.len() > 2 { g[2] } else { 0 };
    let c0 = h[0];
    let c1: u8 = if h.len() > 1 { h[1] } else { 0 };
    let c2: u8 = if h.len() > 2 { h[2] } else { 0 };
    let x = group_chars(g);
    let y = group_chars(h);
    let x2: Seq<char> = if g.len() > 1 { seq![sextet_char((b1 as int % 16) * 4 + b2 as int / 64)] } else { Seq::empty() };
    let x3: Seq<char> = if g.len() > 2 { seq![sextet_char(b2 as int % 64)] } else { Seq::empty() };
    let y2: Seq<char> = if h.len() > 1 { seq![sextet_char((c1 as int % 16) * 4 + c2 as int / 64)] } else { Seq::empty() };
    let y3: Seq<char> = if h.len() > 2 { seq![sextet_char(c2 as int % 64)] } else { Seq::empty() };
    let x01 = seq![sextet_char(b0 as int / 4), sextet_char((b0 as int % 4) * 16 + b1 as int / 16)];
    let y01 = seq![sextet_char(c0 as int / 4), sextet_char((c0 as int % 4) * 16 + c1 as int / 16)];
    assert(x == x01 + x2 + x3);
    assert(y == y01 + y2 + y3);
    assert(x[0] == x01[0] && x[1] == x01[1]);
    assert(y[0] == y01[0] && y[1] == y01[1]);
    if g.len() > 1 {
        assert(x[2] == x2[0] && y[2] == y2[0]);
    }
    if g.len() > 2 {
        assert(x[3] == x3[0] && y[3] == y3[0]);
    }
    lemma_sextet_char_injective(b0 as int / 4, c0 as int / 4);
    lemma_sextet_char_injective((b0 as int % 4) * 16 + b1 as int / 16, (c0 as int % 4) * 16 + c1 as int / 16);
    if g.len() > 1 {
        assert(x[2] == y[2]);
        lemma_sextet_char_injective((b1 as int % 16) * 4 + b2 as int / 64, (c1 as int % 16) * 4 + c2 as int / 64);
    }
    if g.len() > 2 {
        assert(x[3] == y[3]);
        lemma_sextet_char_injective(b2 as int % 64, c2 as int % 64);
    }
    assert(b0 == c0) by (bit_vector)
        requires
            b0 / 4 == c0 / 4,
            (b0 % 4) * 16 + b1 / 16 == (c0 % 4) * 16 + c1 / 16,
    ;
    if g.len() == 1 {
        assert(g =~= h);
    } else if g.len() == 2 {
        assert(b1 == c1) by (bit_vector)
            requires
                (b0 % 4) * 16 + b1 / 16 == (c0 % 4) * 16 + c1 / 16,
                b0 == c0,
                (b1 % 16) * 4 == (c1 % 16) * 4,
        ;
        assert(g =~= h);
    } else {
        assert(b1 == c1 && b2 == c2) by (bit_vector)
            requires
                (b0 % 4) * 16 + b1 / 16 == (c0 % 4) * 16 + c1 / 16,
                b0 == c0,
                (b1 % 16) * 4 + b2 / 64 == (c1 % 16) * 4 + c2 / 64,
                b2 % 64 == c2 % 64,
        ;
        assert(g =~= h);
    }
}

/// Distinct byte strings have distinct encodings: a credential key stands
/// for exactly one credential id.
pub proof fn lemma_base64url_injective(a: Seq<u8>, b: Seq<u8>)
    requires
        base64url(a) == base64url(b),
    ensures
        a == b,
    decreases a.len(),
{
    lemma_base64url_shape(a);
    lemma_base64url_shape(b);
    assert(a.len() == b.len()) by {
        if a.len() < b.len() {
            assert((4 * a.len() + 2) / 3 < (4 * b.len() + 2) / 3);
        } else if a.len() > b.len() {
            assert((4 * b.len() + 2) / 3 < (4 * a.len() + 2) / 3);
        }
    }
    if a.len() == 0 {
        assert(a =~= b);
    } else if a.len() <= 3 {
        lemma_group_chars_injective(a, b);
    } else {
        lemma_group_chars(a.take(3));
        lemma_group_chars(b.take(3));
        let ga = group_chars(a.take(3));
        let gb = group_chars(b.take(3));
        let ra = base64url(a.skip(3));
        let rb = base64url(b.skip(3));
        assert(ga + ra == gb + rb);
        assert(ga =~= (ga + ra).subrange(0, 4));
        assert(gb =~= (gb + rb).subrange(0, 4));
        assert(ra =~= (ga + ra).subrange(4, (ga + ra).len() as int));
        assert(rb =~= (gb + rb).subrange(4, (gb + rb).len() as int));
        lemma_group_chars_injective(a.take(3), b.take(3));
        lemma_base64url_injective(a.skip(3), b.skip(3));
        assert(a =~= a.take(3) + a.skip(3));
        assert(b =~= b.take(3) + b.skip(3));
    }
}

/// Whether `c` is a lowercase hex digit.
pub open spec fn is_lower_hex_char(c: char) -> bool {
    let u = c as u32;
    48 <= u <= 57 || 97 <= u <= 102
}

/// Lowercase hex uses only the digits `0`-`9` and `a`-`f`.
pub proof fn lemma_hex_lower_chars(data: Seq<u8>)
    ensures
        forall|i: int| 0 <= i < hex_lower(data).len() ==> is_lower_hex_char(#[trigger] hex_lower(data)[i]),
    decreases data.len(),
{
    if data.len() > 0 {
        lemma_hex_lower_chars(data.drop_first());
        let a = seq![hex_digit(data[0] as int / 16), hex_digit(data[0] as int % 16)];
        let b = hex_lower(data.drop_first());
        assert forall|i: int| 0 <= i < (a + b).len() implies is_lower_hex_char(#[trigger] (a + b)[i]) by {
            if i < 2 {
                assert((a + b)[i] == a[i]);
            } else {
                assert((a + b)[i] == b[i - 2]);
            }
        }
    }
}

/// Hex encoding doubles the length.
pub proof fn lemma_hex_lower_len(data: Seq<u8>)
    ensures
        hex_lower(data).len() == 2 * data.len(),
    decreases data.len(),
{
    if data.len() > 0 {
        lemma_hex_lower_len(data.drop_first());
    }
}

} // verus!
