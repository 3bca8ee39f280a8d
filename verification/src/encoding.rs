use vstd::prelude::*;

verus! {

// ---------------------------------------------------------------------------
// Decimal rendering of integers
// ---------------------------------------------------------------------------

/// The ASCII digit for a value in 0..10.
pub open spec fn digit_char(d: int) -> char
    recommends
        0 <= d < 10,
{
    if d == 0 {
        '0'
    } else if d == 1 {
        '1'
    } else if d == 2 {
        '2'
    } else if d == 3 {
        '3'
    } else if d == 4 {
        '4'
    } else if d == 5 {
        '5'
    } else if d == 6 {
        '6'
    } else if d == 7 {
        '7'
    } else if d == 8 {
        '8'
    } else {
        '9'
    }
}

/// Decimal digits of a natural number, most significant first, without leading zeros.
pub open spec fn decimal_digits(n: nat) -> Seq<char>
    decreases n,
{
    if n < 10 {
        seq![digit_char(n as int)]
    } else {
        decimal_digits(n / 10).push(digit_char((n % 10) as int))
    }
}

/// Decimal representation of an integer, with a leading '-' for negative values.
pub open spec fn decimal(n: int) -> Seq<char> {
    if n < 0 {
        seq!['-'] + decimal_digits((-n) as nat)
    } else {
        decimal_digits(n as nat)
    }
}

/// Appends one character to a string (`String::push`).
#[verifier::external_body]
pub(crate) fn push_char(s: &mut String, c: char)
    ensures
        final(s)@ == old(s)@.push(c),
{
    s.push(c);
}

/// Appends a string slice to a string (`String::push_str`).
#[verifier::external_body]
pub(crate) fn push_str(s: &mut String, t: &str)
    ensures
        final(s)@ == old(s)@ + t@,
{
    s.push_str(t);
}

/// Compares two string slices (`str::eq`).
#[verifier::external_body]
pub(crate) fn str_eq(a: &str, b: &str) -> (r: bool)
    ensures
        r == (a@ == b@),
{
    a == b
}

fn digit_of(d: u64) -> (c: char)
    requires
        d < 10,
    ensures
        c == digit_char(d as int),
{
    if d == 0 {
        '0'
    } else if d == 1 {
        '1'
    } else if d == 2 {
        '2'
    } else if d == 3 {
        '3'
    } else if d == 4 {
        '4'
    } else if d == 5 {
        '5'
    } else if d == 6 {
        '6'
    } else if d == 7 {
        '7'
    } else if d == 8 {
        '8'
    } else {
        '9'
    }
}

fn push_digits(s: &mut String, m: u64)
    ensures
        final(s)@ == old(s)@ + decimal_digits(m as nat),
    decreases m,
{
    if m < 10 {
        push_char(s, digit_of(m));
    } else {
        push_digits(s, m / 10);
        push_char(s, digit_of(m % 10));
    }
}

/// Appends the decimal representation of `n` to `s`.
pub fn push_decimal(s: &mut String, n: i64)
    ensures
        final(s)@ == old(s)@ + decimal(n as int),
{
    if n < 0 {
        push_char(s, '-');
        let magnitude: u64 = ((-(n + 1)) as u64) + 1;
        push_digits(s, magnitude);
        assert(s@ =~= old(s)@ + decimal(n as int));
    } else {
        push_digits(s, n as u64);
    }
}

/// Appends the decimal representation of an unsigned `n` to `s`.
pub fn push_decimal_unsigned(s: &mut String, n: u64)
    ensures
        final(s)@ == old(s)@ + decimal(n as int),
{
    push_digits(s, n);
}

/// Decimal representation of `n` as a new string.
pub fn decimal_string(n: i64) -> (r: String)
    ensures
        r@ == decimal(n as int),
{
    let mut s = String::new();
    push_decimal(&mut s, n);
    assert(s@ =~= decimal(n as int));
    s
}

// ---------------------------------------------------------------------------
// UTF-16
// ---------------------------------------------------------------------------

/// True for a Unicode scalar value (a value that a `char` can hold).
pub open spec fn is_scalar(v: int) -> bool {
    (0 <= v < 0xD800) || (0xE000 <= v <= 0x10FFFF)
}

pub open spec fn is_high_surrogate(u: u16) -> bool {
    0xD800 <= u < 0xDC00
}

pub open spec fn is_low_surrogate(u: u16) -> bool {
    0xDC00 <= u < 0xE000
}

/// The UTF-16 code units of one character.
pub open spec fn utf16_of_char(c: char) -> Seq<u16> {
    let v = c as int;
    if v < 0x10000 {
        seq![v as u16]
    } else {
        seq![(0xD800 + (v - 0x10000) / 0x400) as u16, (0xDC00 + (v - 0x10000) % 0x400) as u16]
    }
}

/// The UTF-16 encoding of a sequence of characters.
pub open spec fn utf16(s: Seq<char>) -> Seq<u16>
    decreases s.len(),
{
    if s.len() == 0 {
        seq![]
    } else {
        utf16_of_char(s[0]) + utf16(s.drop_first())
    }
}

/// Decoding of UTF-16 code units; `None` where a surrogate is unpaired.
pub open spec fn utf16_decode(u: Seq<u16>) -> Option<Seq<char>>
    decreases u.len(),
{
    if u.len() == 0 {
        Some(seq![])
    } else if is_high_surrogate(u[0]) {
        if u.len() >= 2 && is_low_surrogate(u[1]) {
            match utf16_decode(u.subrange(2, u.len() as int)) {
                Some(rest) => Some(
                    seq![
                        ((0x10000 + (u[0] - 0xD800) * 0x400 + (u[1] - 0xDC00)) as char)
                    ] + rest,
                ),
                None => None,
            }
        } else {
            None
        }
    } else if is_low_surrogate(u[0]) {
        None
    } else {
        match utf16_decode(u.drop_first()) {
            Some(rest) => Some(seq![(u[0] as char)] + rest),
            None => None,
        }
    }
}


/// The encoding of a concatenation is the concatenation of the encodings.
pub proof fn lemma_utf16_concat(a: Seq<char>, b: Seq<char>)
    ensures
        utf16(a + b) == utf16(a) + utf16(b),
    decreases a.len(),
{
    if a.len() == 0 {
        assert(a + b =~= b);
    } else {
        assert((a + b).drop_first() =~= a.drop_first() + b);
        lemma_utf16_concat(a.drop_first(), b);
        assert(utf16(a + b) =~= utf16(a) + utf16(b));
    }
}

proof fn lemma_utf16_of_char_shape(c: char)
    ensures
        ({
            let e = utf16_of_char(c);
            let v = c as int;
            &&& v < 0x10000 ==> e.len() == 1 && !is_high_surrogate(e[0]) && !is_low_surrogate(e[0])
                && e[0] as int == v
            &&& v >= 0x10000 ==> e.len() == 2 && is_high_surrogate(e[0]) && is_low_surrogate(e[1])
                && 0x10000 + (e[0] - 0xD800) * 0x400 + (e[1] - 0xDC00) == v
        }),
{
    let v = c as int;
    assert(is_scalar(v));
    if v >= 0x10000 {
        let x = v - 0x10000;
        assert(0 <= x < 0x100000);
        assert(x == (x / 0x400) * 0x400 + x % 0x400);
        assert(0 <= x / 0x400 < 0x400);
    }
}

/// Decoding undoes encoding.
pub proof fn lemma_utf16_decode_encode(s: Seq<char>)
    ensures
        utf16_decode(utf16(s)) == Some(s),
    decreases s.len(),
{
    if s.len() == 0 {
    } else {
        let c = s[0];
        let e = utf16_of_char(c);
        let rest = utf16(s.drop_first());
        lemma_utf16_decode_encode(s.drop_first());
        lemma_utf16_of_char_shape(c);
        let u = utf16(s);
        assert(u == e + rest);
        if (c as int) < 0x10000 {
            assert(u.drop_first() =~= rest);
            assert(u[0] == e[0]);
            assert((u[0] as char) == c);
            assert(seq![c] + s.drop_first() =~= s);
        } else {
            assert(u.subrange(2, u.len() as int) =~= rest);
            assert(u[0] == e[0] && u[1] == e[1]);
            assert(((0x10000 + (u[0] - 0xD800) * 0x400 + (u[1] - 0xDC00)) as char) == c);
            assert(seq![c] + s.drop_first() =~= s);
        }
    }
}

/// Whatever decodes successfully encodes back to the same code units.
pub proof fn lemma_utf16_encode_decode(u: Seq<u16>)
    ensures
        utf16_decode(u) matches Some(s) ==> utf16(s) == u,
    decreases u.len(),
{
    if u.len() == 0 {
    } else if is_high_surrogate(u[0]) {
        if u.len() >= 2 && is_low_surrogate(u[1]) {
            let tail = u.subrange(2, u.len() as int);
            lemma_utf16_encode_decode(tail);
            if let Some(rest) = utf16_decode(tail) {
                let v: int = 0x10000 + (u[0] - 0xD800) * 0x400 + (u[1] - 0xDC00);
                assert(is_scalar(v));
                let c = v as char;
                assert(c as int == v);
                let x = v - 0x10000;
                assert(x / 0x400 == u[0] - 0xD800);
                assert(x % 0x400 == u[1] - 0xDC00);
                let s = seq![c] + rest;
                assert(s.drop_first() =~= rest);
                assert(utf16(s) =~= u);
            }
        }
    } else if is_low_surrogate(u[0]) {
    } else {
        let tail = u.drop_first();
        lemma_utf16_encode_decode(tail);
        if let Some(rest) = utf16_decode(tail) {
            let c = u[0] as char;
            assert(is_scalar(u[0] as int));
            assert(c as int == u[0] as int);
            let s = seq![c] + rest;
            assert(s.drop_first() =~= rest);
            assert(utf16(s) =~= u);
        }
    }
}

/// Code units have a decoding exactly when they are the encoding of some text,
/// and that text is the decoding.
pub proof fn lemma_utf16_decode_spec(u: Seq<u16>)
    ensures
        utf16_decode(u) matches Some(s) ==> utf16(s) == u,
        utf16_decode(u) is None ==> forall|s: Seq<char>| #[trigger] utf16(s) != u,
{
    lemma_utf16_encode_decode(u);
    if utf16_decode(u) is None {
        assert forall|s: Seq<char>| #[trigger] utf16(s) != u by {
            if utf16(s) == u {
                lemma_utf16_decode_encode(s);
            }
        }
    }
}


/// Decodes a Unicode scalar value (`char::from_u32`).
#[verifier::external_body]
fn char_from_scalar(v: u32) -> (r: Option<char>)
    ensures
        r is Some <==> is_scalar(v as int),
        r matches Some(c) ==> c as int == v as int,
{
    char::from_u32(v)
}

fn push_utf16_of_char(r: &mut Vec<u16>, c: char)
    ensures
        final(r)@ == old(r)@ + utf16_of_char(c),
{
    let v: u32 = c as u32;
    if v < 0x10000 {
        r.push(v as u16);
    } else {
        let x: u32 = v - 0x10000;
        r.push((0xD800 + x / 0x400) as u16);
        r.push((0xDC00 + x % 0x400) as u16);
    }
    assert(r@ =~= old(r)@ + utf16_of_char(c));
}

/// The UTF-16 code units of a text (`str::encode_utf16`).
pub fn encode_utf16(s: &str) -> (r: Vec<u16>)
    ensures
        r@ == utf16(s@),
{
    let mut r: Vec<u16> = Vec::new();
    proof {
        broadcast use vstd::string::group_string_axioms;
    }
    for c in it: s.chars()
        invariant
            it.seq() == s@,
            r@ == utf16(s@.take(it.index() as int)),
    {
        proof {
            let i = it.index() as int;
            lemma_utf16_concat(s@.take(i), seq![c]);
            assert(s@.take(i + 1) =~= s@.take(i) + seq![c]);
            assert(seq![c].drop_first() =~= Seq::<char>::empty());
            assert(utf16(Seq::<char>::empty()) == Seq::<u16>::empty());
            assert(utf16(seq![c]) =~= utf16_of_char(c));
            assert(c == s@[i]);
        }
        push_utf16_of_char(&mut r, c);
    }
    assert(s@.take(s@.len() as int) =~= s@);
    r
}


/// Prepends decoded text to an optional decoding.
pub open spec fn prepend_decoded(p: Seq<char>, o: Option<Seq<char>>) -> Option<Seq<char>> {
    match o {
        Some(r) => Some(p + r),
        None => None,
    }
}

/// Decodes the code units `u[start..end]` (`String::from_utf16`); `None` where
/// a surrogate in that range is unpaired.
pub fn decode_utf16_range(u: &Vec<u16>, start: usize, end: usize) -> (r: Option<String>)
    requires
        start <= end <= u.len(),
    ensures
        match r {
            Some(s) => utf16_decode(u@.subrange(start as int, end as int)) == Some(s@),
            None => utf16_decode(u@.subrange(start as int, end as int)) is None,
        },
{
    let mut out = String::new();
    let mut i = start;
    assert(out@ + Seq::<char>::empty() =~= out@);
    assert(prepend_decoded(out@, utf16_decode(u@.subrange(i as int, end as int)))
        =~= utf16_decode(u@.subrange(start as int, end as int))) by {
        match utf16_decode(u@.subrange(start as int, end as int)) {
            Some(r) => { assert(Seq::<char>::empty() + r =~= r); }
            None => {}
        }
    }
    while i < end
        invariant
            start <= i <= end <= u.len(),
            utf16_decode(u@.subrange(start as int, end as int))
                == prepend_decoded(out@, utf16_decode(u@.subrange(i as int, end as int))),
        decreases end - i,
    {
        let ghost tail = u@.subrange(i as int, end as int);
        let w = u[i];
        assert(tail[0] == w);
        if 0xD800 <= w && w < 0xDC00 {
            if i + 1 < end && 0xDC00 <= u[i + 1] && u[i + 1] < 0xE000 {
                let w2 = u[i + 1];
                assert(tail[1] == w2);
                let v: u32 = 0x10000 + ((w - 0xD800) as u32) * 0x400 + ((w2 - 0xDC00) as u32);
                let c = char_from_scalar(v);
                match c {
                    Some(ch) => {
                        assert(tail.subrange(2, tail.len() as int) =~= u@.subrange(i + 2, end as int));
                        assert((v as int) as char == ch);
                        let ghost old_out = out@;
                        push_char(&mut out, ch);
                        proof { match utf16_decode(u@.subrange(i + 2, end as int)) {
                            Some(r) => { assert(old_out + (seq![ch] + r) =~= out@ + r); }
                            None => {}
                        } }
                        i = i + 2;
                    }
                    None => {
                        return None;
                    }
                }
            } else {
                return None;
            }
        } else if 0xDC00 <= w && w < 0xE000 {
            return None;
        } else {
            let c = char_from_scalar(w as u32);
            match c {
                Some(ch) => {
                    assert(tail.drop_first() =~= u@.subrange(i + 1, end as int));
                    assert((w as int) as char == ch);
                    let ghost old_out = out@;
                    push_char(&mut out, ch);
                    proof { match utf16_decode(u@.subrange(i + 1, end as int)) {
                        Some(r) => { assert(old_out + (seq![ch] + r) =~= out@ + r); }
                        None => {}
                    } }
                    i = i + 1;
                }
                None => {
                    return None;
                }
            }
        }
    }
    assert(u@.subrange(end as int, end as int) =~= Seq::<u16>::empty());
    assert(out@ + Seq::<char>::empty() =~= out@);
    Some(out)
}

} // verus!
