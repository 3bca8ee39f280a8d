use vstd::prelude::*;
use crate::encoding::{push_char, push_str};

verus! {

/// Telegram Integer type
pub type Integer = i64;

/// A Telegram Float, held as its IEEE 754 single-precision bit pattern
/// (`f32::to_bits` / `f32::from_bits` convert)
pub type FloatBits = u32;

/// Send Markdown or HTML,
/// if you want Telegram apps to show
/// bold, italic, fixed-width text or
/// inline URLs in the media caption.
#[derive(Clone, Copy, Debug, PartialEq, Eq, Structural)]
pub enum ParseMode {
    /// HTML
    Html,
    /// Markdown
    Markdown,
    /// MarkdownV2 style
    MarkdownV2,
}

/// The name of a parse mode as the Bot API spells it.
pub open spec fn parse_mode_name(mode: ParseMode) -> Seq<char> {
    match mode {
        ParseMode::Html => seq!['H', 'T', 'M', 'L'],
        ParseMode::Markdown => seq!['M', 'a', 'r', 'k', 'd', 'o', 'w', 'n'],
        ParseMode::MarkdownV2 => seq!['M', 'a', 'r', 'k', 'd', 'o', 'w', 'n', 'V', '2'],
    }
}

/// Characters that MarkdownV2 requires to be escaped with a backslash.
pub open spec fn is_markdown_v2_special(c: char) -> bool {
    c == '_' || c == '*' || c == '[' || c == ']' || c == '(' || c == ')' || c == '~' || c == '`'
        || c == '>' || c == '#' || c == '+' || c == '-' || c == '=' || c == '|' || c == '{'
        || c == '}' || c == '.' || c == '!'
}

/// Characters that legacy Markdown requires to be escaped with a backslash.
pub open spec fn is_markdown_special(c: char) -> bool {
    c == '_' || c == '*' || c == '`' || c == '['
}

/// The escaped form of one character under a parse mode.
pub open spec fn escape_char(mode: ParseMode, c: char) -> Seq<char> {
    match mode {
        ParseMode::Html => {
            if c == '<' {
                seq!['&', 'l', 't', ';']
            } else if c == '>' {
                seq!['&', 'g', 't', ';']
            } else if c == '&' {
                seq!['&', 'a', 'm', 'p', ';']
            } else {
                seq![c]
            }
        },
        ParseMode::Markdown => {
            if is_markdown_special(c) {
                seq!['\\', c]
            } else {
                seq![c]
            }
        },
        ParseMode::MarkdownV2 => {
            if is_markdown_v2_special(c) {
                seq!['\\', c]
            } else {
                seq![c]
            }
        },
    }
}

/// The escaped form of a text under a parse mode: each character escaped in turn.
pub open spec fn escaped(mode: ParseMode, s: Seq<char>) -> Seq<char>
    decreases s.len(),
{
    if s.len() == 0 {
        seq![]
    } else {
        escaped(mode, s.drop_last()) + escape_char(mode, s.last())
    }
}

/// Escaping a text escapes its parts in turn: the escaped form of two texts joined is
/// their escaped forms joined.
pub proof fn lemma_escaped_concat(mode: ParseMode, a: Seq<char>, b: Seq<char>)
    ensures
        escaped(mode, a + b) == escaped(mode, a) + escaped(mode, b),
    decreases b.len(),
{
    if b.len() == 0 {
        assert(a + b =~= a);
        assert(escaped(mode, a) + escaped(mode, b) =~= escaped(mode, a));
    } else {
        assert((a + b).drop_last() =~= a + b.drop_last());
        assert((a + b).last() == b.last());
        lemma_escaped_concat(mode, a, b.drop_last());
        assert(escaped(mode, a + b) =~= escaped(mode, a) + escaped(mode, b));
    }
}

/// A parse mode as JSON: its name as a string.
pub open spec fn parse_mode_json(mode: ParseMode) -> Seq<char> {
    crate::json::json_string(parse_mode_name(mode))
}

impl ParseMode {
    /// The parse mode as JSON
    pub fn to_json(&self) -> (r: String)
        ensures
            r@ == parse_mode_json(*self),
    {
        let name = self.to_string();
        crate::json::json_string_of(name.as_str())
    }

    /// Returns the name of the parse mode ("HTML", "Markdown" or "MarkdownV2")
    pub fn to_string(&self) -> (r: String)
        ensures
            r@ == parse_mode_name(*self),
    {
        let mut r = String::new();
        match self {
            ParseMode::Html => {
                push_char(&mut r, 'H');
                push_char(&mut r, 'T');
                push_char(&mut r, 'M');
                push_char(&mut r, 'L');
            },
            ParseMode::Markdown => {
                push_markdown(&mut r);
            },
            ParseMode::MarkdownV2 => {
                push_markdown(&mut r);
                push_char(&mut r, 'V');
                push_char(&mut r, '2');
            },
        }
        assert(r@ =~= parse_mode_name(*self));
        r
    }

    /// Escapes a text so that it is shown literally under this parse mode
    pub fn escape(self, input: &str) -> (r: String)
        ensures
            r@ == escaped(self, input@),
    {
        let mut r = String::new();
        proof {
            broadcast use vstd::string::group_string_axioms;
        }
        for c in it: input.chars()
            invariant
                it.seq() == input@,
                r@ == escaped(self, input@.take(it.index() as int)),
        {
            proof {
                let i = it.index() as int;
                assert(c == input@[i]);
                assert(input@.take(i + 1).drop_last() =~= input@.take(i));
            }
            push_escaped_char(&mut r, self, c);
        }
        assert(input@.take(input@.len() as int) =~= input@);
        r
    }
}

fn push_markdown(r: &mut String)
    ensures
        final(r)@ == old(r)@ + seq!['M', 'a', 'r', 'k', 'd', 'o', 'w', 'n'],
{
    push_char(r, 'M');
    push_char(r, 'a');
    push_char(r, 'r');
    push_char(r, 'k');
    push_char(r, 'd');
    push_char(r, 'o');
    push_char(r, 'w');
    push_char(r, 'n');
    assert(r@ =~= old(r)@ + seq!['M', 'a', 'r', 'k', 'd', 'o', 'w', 'n']);
}

fn push_escaped_char(r: &mut String, mode: ParseMode, c: char)
    ensures
        final(r)@ == old(r)@ + escape_char(mode, c),
{
    match mode {
        ParseMode::Html => {
            if c == '<' {
                push_char(r, '&');
                push_char(r, 'l');
                push_char(r, 't');
                push_char(r, ';');
            } else if c == '>' {
                push_char(r, '&');
                push_char(r, 'g');
                push_char(r, 't');
                push_char(r, ';');
            } else if c == '&' {
                push_char(r, '&');
                push_char(r, 'a');
                push_char(r, 'm');
                push_char(r, 'p');
                push_char(r, ';');
            } else {
                push_char(r, c);
            }
        },
        ParseMode::Markdown => {
            if c == '_' || c == '*' || c == '`' || c == '[' {
                push_char(r, '\\');
            }
            push_char(r, c);
        },
        ParseMode::MarkdownV2 => {
            if c == '_' || c == '*' || c == '[' || c == ']' || c == '(' || c == ')' || c == '~'
                || c == '`' || c == '>' || c == '#' || c == '+' || c == '-' || c == '='
                || c == '|' || c == '{' || c == '}' || c == '.' || c == '!' {
                push_char(r, '\\');
            }
            push_char(r, c);
        },
    }
    assert(r@ =~= old(r)@ + escape_char(mode, c));
}

} // verus!
