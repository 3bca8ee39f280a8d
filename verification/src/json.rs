use vstd::prelude::*;
use crate::encoding::{decimal, push_decimal, push_str};

verus! {

/// A JSON value (`serde_json::Value`)
#[verifier::external_type_specification]
#[verifier::external_body]
pub struct ExJsonValue(serde_json::Value);

/// An error of the JSON parser (`serde_json::Error`)
#[verifier::external_type_specification]
#[verifier::external_body]
pub struct ExJsonError(serde_json::Error);

/// Whether `serde_json` accepts a text as one JSON value (with surrounding whitespace and
/// a nesting depth of at most 128); it depends on the text alone.
pub uninterp spec fn json_text_parses(text: Seq<char>) -> bool;

/// The value that `serde_json` reads from a JSON text; it depends on the text alone.
pub uninterp spec fn json_value_of(text: Seq<char>) -> serde_json::Value;

/// Parses a JSON text into a value (`serde_json::from_str::<serde_json::Value>`).
///
/// Claimed: it succeeds exactly when the text is one that `serde_json` accepts, and then
/// gives the value that `serde_json` reads from the text; both depend on the text alone.
#[verifier::external_body]
pub(crate) fn parse_json(text: &str) -> (r: Result<serde_json::Value, serde_json::Error>)
    ensures
        r is Ok <==> json_text_parses(text@),
        r matches Ok(v) ==> v == json_value_of(text@),
{
    serde_json::from_str(text)
}


// ---------------------------------------------------------------------------
// JSON text as the Bot API receives it
// ---------------------------------------------------------------------------

/// Lower-case hexadecimal digit for a value in 0..16.
pub open spec fn hex_digit(d: int) -> char {
    if d < 10 {
        crate::encoding::digit_char(d)
    } else if d == 10 {
        'a'
    } else if d == 11 {
        'b'
    } else if d == 12 {
        'c'
    } else if d == 13 {
        'd'
    } else if d == 14 {
        'e'
    } else {
        'f'
    }
}

/// How one character is written inside a JSON string: quotation mark and backslash are
/// escaped by a backslash, control characters by their short escape or by `\u00XX`,
/// every other character stands as it is.
pub open spec fn json_escape_char(c: char) -> Seq<char> {
    let v = c as int;
    if c == '"' {
        seq!['\\', '"']
    } else if c == '\\' {
        seq!['\\', '\\']
    } else if v == 8 {
        seq!['\\', 'b']
    } else if v == 9 {
        seq!['\\', 't']
    } else if v == 10 {
        seq!['\\', 'n']
    } else if v == 12 {
        seq!['\\', 'f']
    } else if v == 13 {
        seq!['\\', 'r']
    } else if v < 32 {
        seq!['\\', 'u', '0', '0', hex_digit(v / 16), hex_digit(v % 16)]
    } else {
        seq![c]
    }
}

/// The escaped characters of a text.
pub open spec fn json_escape(text: Seq<char>) -> Seq<char>
    decreases text.len(),
{
    if text.len() == 0 {
        Seq::empty()
    } else {
        json_escape(text.drop_last()) + json_escape_char(text.last())
    }
}

/// A text as a JSON string.
pub open spec fn json_string(text: Seq<char>) -> Seq<char> {
    seq!['"'] + json_escape(text) + seq!['"']
}

/// Whether a character stands for itself inside a JSON string.
pub open spec fn json_plain_char(c: char) -> bool {
    c != '"' && c != '\\' && c as int >= 32
}

/// A text of characters that stand for themselves is written as it is.
pub proof fn lemma_plain_json_escape(text: Seq<char>)
    requires
        forall|i: int| 0 <= i < text.len() ==> #[trigger] json_plain_char(text[i]),
    ensures
        json_escape(text) == text,
    decreases text.len(),
{
    if text.len() > 0 {
        assert(json_plain_char(text[text.len() - 1]));
        lemma_plain_json_escape(text.drop_last());
        assert(text.drop_last() + seq![text.last()] =~= text);
    }
}

/// Whether every character of a text stands for itself inside a JSON string.
pub open spec fn json_plain_text(text: Seq<char>) -> bool {
    forall|i: int| 0 <= i < text.len() ==> #[trigger] json_plain_char(text[i])
}

/// Members under two different names, each made of characters that stand for
/// themselves, are different, whatever their values.
pub proof fn lemma_member_names_differ(k1: Seq<char>, v1: Seq<char>, k2: Seq<char>, v2: Seq<char>)
    requires
        json_plain_text(k1),
        json_plain_text(k2),
        k1 != k2,
    ensures
        json_member(k1, v1) != json_member(k2, v2),
{
    lemma_plain_json_escape(k1);
    lemma_plain_json_escape(k2);
    let s1 = json_member(k1, v1);
    let s2 = json_member(k2, v2);
    assert(s1 =~= seq!['"'] + k1 + seq!['"', ':'] + v1);
    assert(s2 =~= seq!['"'] + k2 + seq!['"', ':'] + v2);
    if s1 == s2 {
        if k1.len() < k2.len() {
            assert(s1[k1.len() + 1int] == '"');
            assert(s2[k1.len() + 1int] == k2[k1.len() as int]);
            assert(json_plain_char(k2[k1.len() as int]));
        } else if k2.len() < k1.len() {
            assert(s2[k2.len() + 1int] == '"');
            assert(s1[k2.len() + 1int] == k1[k2.len() as int]);
            assert(json_plain_char(k1[k2.len() as int]));
        } else {
            assert(k1 =~= s1.subrange(1, k1.len() + 1int));
            assert(k2 =~= s2.subrange(1, k2.len() + 1int));
        }
    }
}

/// A boolean as JSON.
pub open spec fn json_bool(b: bool) -> Seq<char> {
    if b {
        "true"@
    } else {
        "false"@
    }
}

/// An integer as JSON.
pub open spec fn json_int(n: int) -> Seq<char> {
    decimal(n)
}

/// Parts joined by commas.
pub open spec fn json_join(parts: Seq<Seq<char>>) -> Seq<char>
    decreases parts.len(),
{
    if parts.len() == 0 {
        Seq::empty()
    } else if parts.len() == 1 {
        parts[0]
    } else {
        json_join(parts.drop_last()) + seq![','] + parts.last()
    }
}

/// One member of a JSON object.
pub open spec fn json_member(name: Seq<char>, value: Seq<char>) -> Seq<char> {
    json_string(name) + seq![':'] + value
}

/// The member, where a value is present; nothing otherwise.
pub open spec fn json_opt_member(name: Seq<char>, value: Option<Seq<char>>) -> Seq<Seq<char>> {
    match value {
        Some(v) => seq![json_member(name, v)],
        None => Seq::empty(),
    }
}

/// A JSON object of the given members, in order.
pub open spec fn json_object(members: Seq<Seq<char>>) -> Seq<char> {
    seq!['{'] + json_join(members) + seq!['}']
}

/// A JSON array of the given items, in order.
pub open spec fn json_array(items: Seq<Seq<char>>) -> Seq<char> {
    seq!['['] + json_join(items) + seq![']']
}

/// The JSON string of an optional text.
pub open spec fn opt_json_string(text: Option<Seq<char>>) -> Option<Seq<char>> {
    match text {
        Some(t) => Some(json_string(t)),
        None => None,
    }
}

/// The JSON form of an optional integer.
pub open spec fn opt_json_int(n: Option<i64>) -> Option<Seq<char>> {
    match n {
        Some(v) => Some(json_int(v as int)),
        None => None,
    }
}

/// The JSON form of an optional boolean.
pub open spec fn opt_json_bool(b: Option<bool>) -> Option<Seq<char>> {
    match b {
        Some(v) => Some(json_bool(v)),
        None => None,
    }
}

/// `Some(true)` for a set flag, nothing for a cleared one (a flag that is left out when false).
pub open spec fn flag_json(b: bool) -> Option<Seq<char>> {
    if b {
        Some(json_bool(true))
    } else {
        None
    }
}

/// Serialises a string slice with `serde_json::to_string`.
///
/// Claimed: the result is `Ok`, and holds the text in double quotation marks with
/// quotation mark and backslash escaped by a backslash, the control characters
/// U+0008, U+0009, U+000A, U+000C and U+000D by `\b`, `\t`, `\n`, `\f`, `\r`, the
/// other characters below U+0020 by `\u00` and two lower-case hexadecimal digits, and
/// every other character unchanged. Serialising a string writes into a `Vec<u8>`,
/// which never fails.
#[verifier::external_body]
fn json_quote(text: &str) -> (r: Result<String, serde_json::Error>)
    ensures
        r is Ok,
        r matches Ok(t) ==> t@ == json_string(text@),
{
    serde_json::to_string(text)
}

/// Appends a text as a JSON string.
pub fn push_json_string(out: &mut String, text: &str)
    ensures
        final(out)@ == old(out)@ + json_string(text@),
{
    match json_quote(text) {
        Ok(t) => push_str(out, t.as_str()),
        Err(_) => {},
    }
}

/// A text as a JSON string.
pub fn json_string_of(text: &str) -> (r: String)
    ensures
        r@ == json_string(text@),
{
    let mut r = String::new();
    push_json_string(&mut r, text);
    assert(r@ =~= json_string(text@));
    r
}

/// A JSON object or array written member by member.
pub struct JsonWriter {
    text: String,
    close: char,
    empty: bool,
    parts: Ghost<Seq<Seq<char>>>,
}

impl JsonWriter {
    /// The parts written so far.
    pub closed spec fn parts(&self) -> Seq<Seq<char>> {
        self.parts@
    }

    /// Whether the writer builds an object (otherwise an array).
    pub closed spec fn is_object(&self) -> bool {
        self.close == '}'
    }

    /// The text written so far is the opening bracket and the parts joined by commas, and
    /// `empty` says whether there are parts.
    #[verifier::type_invariant]
    closed spec fn wf(&self) -> bool {
        &&& self.close == '}' || self.close == ']'
        &&& self.empty == (self.parts@.len() == 0)
        &&& self.text@ == seq![if self.close == '}' { '{' } else { '[' }] + json_join(self.parts@)
    }

    /// The finished text.
    pub open spec fn finished(&self) -> Seq<char> {
        if self.is_object() {
            json_object(self.parts())
        } else {
            json_array(self.parts())
        }
    }

    /// Starts an object.
    pub fn object() -> (r: Self)
        ensures
            r.is_object(),
            r.parts() == Seq::<Seq<char>>::empty(),
    {
        let mut text = String::new();
        push_str(&mut text, "{");
        proof {
            reveal_strlit("{");
        }
        assert(text@ =~= seq!['{'] + json_join(Seq::<Seq<char>>::empty()));
        JsonWriter { text, close: '}', empty: true, parts: Ghost(Seq::empty()) }
    }

    /// Starts an array.
    pub fn array() -> (r: Self)
        ensures
            !r.is_object(),
            r.parts() == Seq::<Seq<char>>::empty(),
    {
        let mut text = String::new();
        push_str(&mut text, "[");
        proof {
            reveal_strlit("[");
        }
        assert(text@ =~= seq!['['] + json_join(Seq::<Seq<char>>::empty()));
        JsonWriter { text, close: ']', empty: true, parts: Ghost(Seq::empty()) }
    }

    /// Appends a part given as JSON text.
    pub fn push_raw(&mut self, value: &str)
        ensures
            final(self).is_object() == old(self).is_object(),
            final(self).parts() == old(self).parts().push(value@),
    {
        let mut w = JsonWriter::object();
        std::mem::swap(self, &mut w);
        proof {
            use_type_invariant(&w);
        }
        let JsonWriter { mut text, close, empty, parts } = w;
        if !empty {
            push_str(&mut text, ",");
            proof {
                reveal_strlit(",");
            }
        }
        push_str(&mut text, value);
        let ghost p = parts@.push(value@);
        proof {
            let open = seq![if close == '}' { '{' } else { '[' }];
            lemma_join_push(parts@, value@);
            assert(text@ =~= open + json_join(p));
        }
        *self = JsonWriter { text, close, empty: false, parts: Ghost(p) };
    }

    /// Appends an object member whose value is given as JSON text.
    pub fn member_raw(&mut self, name: &str, value: &str)
        ensures
            final(self).is_object() == old(self).is_object(),
            final(self).parts() == old(self).parts().push(json_member(name@, value@)),
    {
        let mut m = json_string_of(name);
        push_str(&mut m, ":");
        push_str(&mut m, value);
        proof {
            reveal_strlit(":");
            assert(m@ =~= json_member(name@, value@));
        }
        self.push_raw(m.as_str());
    }

    /// Appends an object member with a string value.
    pub fn member_string(&mut self, name: &str, value: &str)
        ensures
            final(self).is_object() == old(self).is_object(),
            final(self).parts() == old(self).parts().push(json_member(name@, json_string(value@))),
    {
        let v = json_string_of(value);
        self.member_raw(name, v.as_str());
    }

    /// Appends an object member with an integer value.
    pub fn member_int(&mut self, name: &str, value: i64)
        ensures
            final(self).is_object() == old(self).is_object(),
            final(self).parts() == old(self).parts().push(json_member(name@, json_int(value as int))),
    {
        let mut v = String::new();
        push_decimal(&mut v, value);
        assert(v@ =~= json_int(value as int));
        self.member_raw(name, v.as_str());
    }

    /// Appends an object member with a boolean value.
    pub fn member_bool(&mut self, name: &str, value: bool)
        ensures
            final(self).is_object() == old(self).is_object(),
            final(self).parts() == old(self).parts().push(json_member(name@, json_bool(value))),
    {
        if value {
            proof {
                reveal_strlit("true");
            }
            self.member_raw(name, "true");
        } else {
            proof {
                reveal_strlit("false");
            }
            self.member_raw(name, "false");
        }
    }

    /// Appends an object member with a string value, where there is one.
    pub fn opt_string(&mut self, name: &str, value: &Option<String>)
        ensures
            final(self).is_object() == old(self).is_object(),
            final(self).parts() == old(self).parts() + json_opt_member(
                name@,
                opt_json_string(crate::types::login_url::opt_view(*value)),
            ),
    {
        match value {
            Some(v) => {
                self.member_string(name, v.as_str());
                assert(self.parts() =~= old(self).parts() + json_opt_member(
                    name@,
                    opt_json_string(crate::types::login_url::opt_view(*value)),
                ));
            },
            None => {
                assert(self.parts() =~= old(self).parts() + json_opt_member(
                    name@,
                    opt_json_string(crate::types::login_url::opt_view(*value)),
                ));
            },
        }
    }

    /// Appends an object member with an integer value, where there is one.
    pub fn opt_int(&mut self, name: &str, value: Option<i64>)
        ensures
            final(self).is_object() == old(self).is_object(),
            final(self).parts() == old(self).parts() + json_opt_member(name@, opt_json_int(value)),
    {
        match value {
            Some(v) => {
                self.member_int(name, v);
                assert(self.parts() =~= old(self).parts() + json_opt_member(name@, opt_json_int(value)));
            },
            None => {
                assert(self.parts() =~= old(self).parts() + json_opt_member(name@, opt_json_int(value)));
            },
        }
    }

    /// Appends an object member with a boolean value, where there is one.
    pub fn opt_bool(&mut self, name: &str, value: Option<bool>)
        ensures
            final(self).is_object() == old(self).is_object(),
            final(self).parts() == old(self).parts() + json_opt_member(name@, opt_json_bool(value)),
    {
        match value {
            Some(v) => {
                self.member_bool(name, v);
                assert(self.parts() =~= old(self).parts() + json_opt_member(name@, opt_json_bool(value)));
            },
            None => {
                assert(self.parts() =~= old(self).parts() + json_opt_member(name@, opt_json_bool(value)));
            },
        }
    }

    /// Appends `name: true` for a set flag; nothing for a cleared one.
    pub fn flag(&mut self, name: &str, value: bool)
        ensures
            final(self).is_object() == old(self).is_object(),
            final(self).parts() == old(self).parts() + json_opt_member(name@, flag_json(value)),
    {
        if value {
            self.member_bool(name, true);
        }
        assert(self.parts() =~= old(self).parts() + json_opt_member(name@, flag_json(value)));
    }

    /// The finished object or array.
    pub fn finish(self) -> (r: String)
        ensures
            r@ == self.finished(),
    {
        proof {
            use_type_invariant(&self);
        }
        let mut text = self.text;
        let close = self.close;
        crate::encoding::push_char(&mut text, close);
        assert(text@ =~= self.finished());
        text
    }
}

/// Joining one more part.
proof fn lemma_join_push(parts: Seq<Seq<char>>, last: Seq<char>)
    ensures
        json_join(parts.push(last)) == json_join(parts) + (if parts.len() == 0 {
            Seq::<char>::empty()
        } else {
            seq![',']
        }) + last,
{
    assert(parts.push(last).drop_last() =~= parts);
    if parts.len() == 0 {
        assert(json_join(parts.push(last)) == last);
        assert(json_join(parts) =~= Seq::<char>::empty());
        assert(Seq::<char>::empty() + Seq::<char>::empty() + last =~= last);
    }
}

} // verus!
