//! A padding-tolerant base64 decoder over the standard alphabet.
use vstd::prelude::*;

verus! {

/// Why a base64 text could not be decoded.
#[derive(Debug, Clone, Copy, PartialEq, Eq, Structural)]
pub enum Base64Error {
    /// A character outside the alphabet that is neither whitespace nor padding.
    InvalidCharacter(char),
}

/// Relies on the `Display` of `char`, which writes the character itself.
#[verifier::external_body]
fn char_text(c: char) -> (r: String)
    ensures
        r@ == seq![c],
{
    c.to_string()
}

impl Base64Error {
    /// A message naming the offending character.
    pub fn message(&self) -> (r: String)
        ensures
            r@ == self.message_spec(),
    {
        match self {
            Base64Error::InvalidCharacter(c) => {
                let mut t = String::from_str(INVALID_CHARACTER);
                t.append(char_text(*c).as_str());
                t
            },
        }
    }

    pub open spec fn message_spec(&self) -> Seq<char> {
        match self {
            Base64Error::InvalidCharacter(c) => INVALID_CHARACTER@ + seq![*c],
        }
    }
}

pub const INVALID_CHARACTER: &'static str = "Invalid base64 character: ";

/// The characters that `char::is_whitespace` accepts: the Unicode `White_Space` property.
pub open spec fn is_space(c: char) -> bool {
    ('\u{9}' <= c && c <= '\u{d}') || c == ' ' || c == '\u{85}' || c == '\u{a0}' || c == '\u{1680}'
        || ('\u{2000}' <= c && c <= '\u{200a}') || c == '\u{2028}' || c == '\u{2029}'
        || c == '\u{202f}' || c == '\u{205f}' || c == '\u{3000}'
}

/// Whether `c` is one of the 64 symbols `A-Z a-z 0-9 + /`.
pub open spec fn is_symbol(c: char) -> bool {
    ('A' <= c && c <= 'Z') || ('a' <= c && c <= 'z') || ('0' <= c && c <= '9') || c == '+' || c
        == '/'
}

/// The six-bit value of a symbol (zero for any other character).
pub open spec fn sextet(c: char) -> u8 {
    if 'A' <= c && c <= 'Z' {
        (c as u32 - 'A' as u32) as u8
    } else if 'a' <= c && c <= 'z' {
        (c as u32 - 'a' as u32 + 26) as u8
    } else if '0' <= c && c <= '9' {
        (c as u32 - '0' as u32 + 52) as u8
    } else if c == '+' {
        62
    } else if c == '/' {
        63
    } else {
        0
    }
}

/// The characters that take part in decoding: whitespace dropped, and nothing from the
/// first `=` on.
pub open spec fn symbols(s: Seq<char>) -> Seq<char>
    decreases s.len(),
{
    if s.len() == 0 {
        Seq::empty()
    } else {
        let p = s.drop_last();
        let c = s.last();
        if p.contains('=') || is_space(c) || c == '=' {
            symbols(p)
        } else {
            symbols(p).push(c)
        }
    }
}

/// The first character of `t` that is not a symbol, if any.
pub open spec fn first_invalid(t: Seq<char>) -> Option<char>
    decreases t.len(),
{
    if t.len() == 0 {
        None
    } else {
        match first_invalid(t.drop_last()) {
            Some(c) => Some(c),
            None => if is_symbol(t.last()) {
                None
            } else {
                Some(t.last())
            },
        }
    }
}

/// Byte `k` of the bit stream that the six-bit values `v` spell, most significant bits first.
pub open spec fn byte_at(v: Seq<u8>, k: int) -> u8 {
    let b = 4 * (k / 3);
    if k % 3 == 0 {
        (v[b] as int * 4 + v[b + 1] as int / 16) as u8
    } else if k % 3 == 1 {
        ((v[b + 1] as int % 16) * 16 + v[b + 2] as int / 4) as u8
    } else {
        ((v[b + 2] as int % 4) * 64 + v[b + 3] as int) as u8
    }
}

/// The whole bytes that six-bit values spell; leftover bits are dropped.
pub open spec fn bytes_of(v: Seq<u8>) -> Seq<u8> {
    Seq::new(((6 * v.len()) / 8) as nat, |k: int| byte_at(v, k))
}

/// What decoding `s` yields: the first character that is not a symbol, or the bytes.
pub open spec fn decode_spec(s: Seq<char>) -> Result<Seq<u8>, char> {
    let t = symbols(s);
    match first_invalid(t) {
        Some(c) => Err(c),
        None => Ok(bytes_of(t.map_values(|c: char| sextet(c)))),
    }
}

/// The symbol for a six-bit value.
pub open spec fn symbol_of(v: u8) -> char {
    if v < 26 {
        (v + 65) as char
    } else if v < 52 {
        (v + 71) as char
    } else if v < 62 {
        (v - 4) as char
    } else if v == 62 {
        '+'
    } else {
        '/'
    }
}

/// Byte `i` of `b`, or zero past its end.
pub open spec fn byte_or_zero(b: Seq<u8>, i: int) -> int {
    if 0 <= i < b.len() {
        b[i] as int
    } else {
        0
    }
}

/// Six-bit value `i` of the standard encoding of `b`, three bytes to four values.
pub open spec fn sextet_at(b: Seq<u8>, i: int) -> u8 {
    let g = 3 * (i / 4);
    let b0 = byte_or_zero(b, g);
    let b1 = byte_or_zero(b, g + 1);
    let b2 = byte_or_zero(b, g + 2);
    if i % 4 == 0 {
        (b0 / 4) as u8
    } else if i % 4 == 1 {
        ((b0 % 4) * 16 + b1 / 16) as u8
    } else if i % 4 == 2 {
        ((b1 % 16) * 4 + b2 / 64) as u8
    } else {
        (b2 % 64) as u8
    }
}

/// The six-bit values of the standard encoding of `b`, without padding.
pub open spec fn encoded_sextets(b: Seq<u8>) -> Seq<u8> {
    Seq::new(((8 * b.len() + 5) / 6) as nat, |i: int| sextet_at(b, i))
}

/// The padding that ends the standard encoding of `b`: none, one or two `=`.
pub open spec fn padding(b: Seq<u8>) -> Seq<char> {
    if b.len() % 3 == 1 {
        seq!['=', '=']
    } else if b.len() % 3 == 2 {
        seq!['=']
    } else {
        Seq::empty()
    }
}

/// The standard base64 encoding of `b` (RFC 4648), padding included.
pub open spec fn encode_spec(b: Seq<u8>) -> Seq<char> {
    encoded_sextets(b).map_values(|v: u8| symbol_of(v)) + padding(b)
}

proof fn lemma_symbol_of(v: u8)
    requires
        v < 64,
    ensures
        is_symbol(symbol_of(v)),
        sextet(symbol_of(v)) == v,
        !is_space(symbol_of(v)),
        symbol_of(v) != '=',
{
}

proof fn lemma_symbols_only(t: Seq<char>)
    requires
        forall|i: int| 0 <= i < t.len() ==> #[trigger] is_symbol(t[i]),
    ensures
        symbols(t) == t,
        first_invalid(t) is None,
        !t.contains('='),
    decreases t.len(),
{
    if t.len() > 0 {
        let p = t.drop_last();
        assert forall|i: int| 0 <= i < p.len() implies #[trigger] is_symbol(p[i]) by {
            assert(p[i] == t[i]);
        }
        lemma_symbols_only(p);
        assert(is_symbol(t[t.len() - 1]));
        assert(symbols(p).push(t.last()) =~= t);
        if t.contains('=') {
            let j = choose|j: int| 0 <= j < t.len() && t[j] == '=';
            assert(is_symbol(t[j]));
        }
    }
}

proof fn lemma_group(b0: int, b1: int, b2: int)
    requires
        0 <= b0 < 256,
        0 <= b1 < 256,
        0 <= b2 < 256,
    ensures
        (b0 / 4) * 4 + ((b0 % 4) * 16 + b1 / 16) / 16 == b0,
        (((b0 % 4) * 16 + b1 / 16) % 16) * 16 + ((b1 % 16) * 4 + b2 / 64) / 4 == b1,
        (((b1 % 16) * 4 + b2 / 64) % 4) * 64 + b2 % 64 == b2,
{
}

/// Decoding the standard encoding of any bytes, with its zero, one or two padding
/// characters, gives those bytes back.
pub proof fn lemma_decode_encoded(b: Seq<u8>)
    ensures
        decode_spec(encode_spec(b)) == Ok::<Seq<u8>, char>(b),
{
    let s = encoded_sextets(b);
    let t = s.map_values(|v: u8| symbol_of(v));
    assert forall|i: int| 0 <= i < s.len() implies #[trigger] s[i] < 64 by {
        let g = 3 * (i / 4);
        let b0 = byte_or_zero(b, g);
        let b1 = byte_or_zero(b, g + 1);
        let b2 = byte_or_zero(b, g + 2);
        assert(0 <= b0 < 256 && 0 <= b1 < 256 && 0 <= b2 < 256);
    }
    assert forall|i: int| 0 <= i < t.len() implies #[trigger] is_symbol(t[i]) by {
        lemma_symbol_of(s[i]);
    }
    lemma_symbols_only(t);
    let e = encode_spec(b);
    if b.len() % 3 == 1 {
        let e1 = t.push('=');
        assert(e.drop_last() =~= e1);
        assert(e.last() == '=');
        assert(symbols(e) == symbols(e1));
        assert(e1.drop_last() =~= t);
        assert(symbols(e1) == symbols(t));
    } else if b.len() % 3 == 2 {
        assert(e.drop_last() =~= t);
        assert(e.last() == '=');
        assert(symbols(e) == symbols(t));
    } else {
        assert(e =~= t);
    }
    assert(symbols(e) == t);
    let v = t.map_values(|c: char| sextet(c));
    assert forall|i: int| 0 <= i < v.len() implies v[i] == s[i] by {
        lemma_symbol_of(s[i]);
    }
    assert(v =~= s);
    let n = b.len() as int;
    assert((6 * ((8 * n + 5) / 6)) / 8 == n) by {
        let q = n / 3;
        let r = n % 3;
        assert(n == 3 * q + r);
        assert((8 * n + 5) / 6 == 4 * q + (8 * r + 5) / 6);
        assert((6 * (4 * q + (8 * r + 5) / 6)) / 8 == 3 * q + (6 * ((8 * r + 5) / 6)) / 8);
    }
    assert forall|k: int| 0 <= k < n implies byte_at(s, k) == b[k] by {
        let g = k / 3;
        let j = k % 3;
        let b0 = byte_or_zero(b, 3 * g);
        let b1 = byte_or_zero(b, 3 * g + 1);
        let b2 = byte_or_zero(b, 3 * g + 2);
        assert(0 <= b0 < 256 && 0 <= b1 < 256 && 0 <= b2 < 256);
        lemma_group(b0, b1, b2);
        assert((4 * g) / 4 == g && (4 * g + 1) / 4 == g && (4 * g + 2) / 4 == g && (4 * g + 3) / 4
            == g);
        assert((4 * g) % 4 == 0 && (4 * g + 1) % 4 == 1 && (4 * g + 2) % 4 == 2 && (4 * g + 3) % 4
            == 3);
        assert(4 * g + j + 1 < s.len()) by {
            let q = n / 3;
            let r = n % 3;
            assert((8 * n + 5) / 6 == 4 * q + (8 * r + 5) / 6);
        }
    }
    assert(bytes_of(s) =~= b);
}

proof fn lemma_invalid_persists(s: Seq<char>, k: int)
    requires
        0 <= k <= s.len(),
        first_invalid(symbols(s.take(k))) is Some,
    ensures
        first_invalid(symbols(s)) is Some,
    decreases s.len() - k,
{
    if k < s.len() {
        let p = s.take(k);
        let q = s.take(k + 1);
        assert(q.drop_last() =~= p);
        assert(symbols(p).push(q.last()).drop_last() =~= symbols(p));
        lemma_invalid_persists(s, k + 1);
    } else {
        assert(s.take(k) =~= s);
    }
}

/// A character outside the alphabet that is neither whitespace nor padding, with no `=`
/// before it, makes decoding fail.
pub proof fn lemma_invalid_character_rejected(s: Seq<char>, i: int)
    requires
        0 <= i < s.len(),
        !is_symbol(s[i]),
        !is_space(s[i]),
        s[i] != '=',
        !s.take(i).contains('='),
    ensures
        decode_spec(s) is Err,
{
    let p = s.take(i);
    let q = s.take(i + 1);
    assert(q.drop_last() =~= p);
    assert(q.last() == s[i]);
    assert(symbols(q) == symbols(p).push(s[i]));
    assert(symbols(p).push(s[i]).drop_last() =~= symbols(p));
    assert(symbols(p).push(s[i]).last() == s[i]);
    assert(first_invalid(symbols(q)) is Some);
    lemma_invalid_persists(s, i + 1);
}

fn is_space_char(c: char) -> (r: bool)
    ensures
        r == is_space(c),
{
    ('\u{9}' <= c && c <= '\u{d}') || c == ' ' || c == '\u{85}' || c == '\u{a0}' || c == '\u{1680}'
        || ('\u{2000}' <= c && c <= '\u{200a}') || c == '\u{2028}' || c == '\u{2029}'
        || c == '\u{202f}' || c == '\u{205f}' || c == '\u{3000}'
}

fn sextet_of(c: char) -> (r: Option<u8>)
    ensures
        r == (if is_symbol(c) {
            Some(sextet(c))
        } else {
            None
        }),
        r matches Some(v) ==> v < 64,
{
    if 'A' <= c && c <= 'Z' {
        Some((c as u32 - 'A' as u32) as u8)
    } else if 'a' <= c && c <= 'z' {
        Some((c as u32 - 'a' as u32 + 26) as u8)
    } else if '0' <= c && c <= '9' {
        Some((c as u32 - '0' as u32 + 52) as u8)
    } else if c == '+' {
        Some(62)
    } else if c == '/' {
        Some(63)
    } else {
        None
    }
}

/// Packs six-bit values into bytes, four values to three bytes.
fn pack_sextets(v: &Vec<u8>) -> (out: Vec<u8>)
    requires
        forall|i: int| 0 <= i < v.len() ==> v[i] < 64,
    ensures
        out@ == bytes_of(v@),
{
    let n = v.len();
    let mut out: Vec<u8> = Vec::new();
    let mut i: usize = 0;
    while n - i >= 4
        invariant
            n == v.len(),
            i % 4 == 0,
            i <= n,
            out.len() == 3 * (i / 4),
            forall|i: int| 0 <= i < v.len() ==> v[i] < 64,
            forall|k: int| 0 <= k < out.len() ==> out@[k] == byte_at(v@, k),
        decreases n - i,
    {
        let ghost k = out.len() as int;
        out.push(v[i] * 4 + v[i + 1] / 16);
        out.push((v[i + 1] % 16) * 16 + v[i + 2] / 4);
        out.push((v[i + 2] % 4) * 64 + v[i + 3]);
        assert(k / 3 == i / 4 && k % 3 == 0 && (k + 1) / 3 == i / 4 && (k + 1) % 3 == 1 && (k + 2)
            / 3 == i / 4 && (k + 2) % 3 == 2);
        i = i + 4;
    }
    let rest = n - i;
    let ghost k = out.len() as int;
    assert(k / 3 == i / 4 && k % 3 == 0 && (k + 1) / 3 == i / 4 && (k + 1) % 3 == 1);
    if rest >= 2 {
        out.push(v[i] * 4 + v[i + 1] / 16);
    }
    if rest >= 3 {
        out.push((v[i + 1] % 16) * 16 + v[i + 2] / 4);
    }
    assert((6 * n) / 8 == 3 * (i / 4) + (if rest == 3 {
        2int
    } else if rest == 2 {
        1int
    } else {
        0int
    }));
    assert(out@ =~= bytes_of(v@));
    out
}

/// Decodes base64 text into bytes.
///
/// Whitespace anywhere is ignored and decoding stops at the first `=`. Any other
/// character outside the alphabet before that point is an error naming the first such
/// character. Bits that do not fill a whole byte at the end are dropped.
pub fn base64_decode(input: &str) -> (r: Result<Vec<u8>, Base64Error>)
    ensures
        r matches Ok(b) ==> decode_spec(input@) == Ok::<Seq<u8>, char>(b@),
        r matches Err(Base64Error::InvalidCharacter(c)) ==> decode_spec(input@) == Err::<
            Seq<u8>,
            char,
        >(c),
{
    let ghost s = input@;
    let mut vals: Vec<u8> = Vec::new();
    let mut bad: Option<char> = None;
    let mut padded = false;
    for c in it: input.chars()
        invariant
            it.seq() == s,
            padded == s.take(it.index() as int).contains('='),
            bad == first_invalid(symbols(s.take(it.index() as int))),
            bad is None ==> vals@ == symbols(s.take(it.index() as int)).map_values(
                |c: char| sextet(c),
            ),
            forall|i: int| 0 <= i < vals.len() ==> vals[i] < 64,
    {
        let ghost i = it.index() as int;
        let ghost p = s.take(i);
        assert(s.take(i + 1).drop_last() =~= p);
        assert(s.take(i + 1).last() == c);
        proof {
            let q = s.take(i + 1);
            assert(symbols(p).push(c).drop_last() =~= symbols(p));
            if !p.contains('=') && c == '=' {
                assert(q[i] == '=');
            }
            if p.contains('=') {
                let j = choose|j: int| 0 <= j < p.len() && p[j] == '=';
                assert(q[j] == '=');
            }
            if q.contains('=') && c != '=' {
                let j = choose|j: int| 0 <= j < q.len() && q[j] == '=';
                assert(p[j] == '=');
            }
        }
        if !padded && !is_space_char(c) && c != '=' {
            if bad.is_none() {
                match sextet_of(c) {
                    Some(x) => {
                        vals.push(x);
                        assert(vals@ =~= symbols(s.take(i + 1)).map_values(|c: char| sextet(c)));
                    },
                    None => {
                        bad = Some(c);
                    },
                }
            }
        }
        if c == '=' {
            padded = true;
        }
    }
    assert(s.take(s.len() as int) =~= s);
    match bad {
        Some(c) => Err(Base64Error::InvalidCharacter(c)),
        None => Ok(pack_sextets(&vals)),
    }
}

} // verus!
