use vstd::prelude::*;
use crate::encoding::{decimal, decode_utf16_range, encode_utf16, push_char, push_decimal, push_str, utf16, utf16_decode};
use crate::types::{
    login_url::opt_view,
    message::raw::{RawMessageEntity, RawMessageEntityKind},
    primitive::Integer,
    user::User,
};

verus! {

/// Text with entities
#[derive(Clone, Debug)]
pub struct Text {
    /// The actual UTF-8 text
    pub data: String,
    /// Text entities
    pub entities: Option<Vec<TextEntity>>,
}

/// Respresents an entity in a text
#[derive(Clone, Debug, PartialEq, PartialOrd)]
pub enum TextEntity {
    /// Bold text
    Bold(TextEntityData),
    /// Bot command
    BotCommand(BotCommand),
    /// Cashtag
    Cashtag(TextEntityData),
    /// Monowidth string
    Code(TextEntityData),
    /// E-Mail
    Email(TextEntityData),
    /// Hashtag
    Hashtag(TextEntityData),
    /// Italic text
    Italic(TextEntityData),
    /// User mention (e.g. @username)
    Mention(TextEntityData),
    /// Phone number
    PhoneNumber(TextEntityData),
    /// Monowidth block
    Pre(TextEntityData),
    /// Strikethrough text
    Strikethrough(TextEntityData),
    /// Clickable text URLs
    TextLink(TextLink),
    /// Mention user without username
    TextMention(TextMention),
    /// Underlined text
    Underline(TextEntityData),
    /// URL
    Url(TextEntityData),
}

/// Bot command
#[derive(Clone, Debug, PartialEq, PartialOrd)]
pub struct BotCommand {
    /// Actual command
    pub command: String,
    /// Bot's username
    pub bot_name: Option<String>,
    /// Entity data
    pub data: TextEntityData,
}

/// Clickable text URLs
#[derive(Clone, Debug, PartialEq, PartialOrd)]
pub struct TextLink {
    /// Actual data of entity
    pub data: TextEntityData,
    /// URL that will be opened after user taps on the text
    pub url: String,
}

/// Mention user without username
#[derive(Clone, Debug, PartialEq, PartialOrd)]
pub struct TextMention {
    /// Actual data of text entity
    pub data: TextEntityData,
    /// Mentioned user
    pub user: User,
}

/// Actual data of text entity
#[derive(Clone, Debug, PartialEq, PartialOrd)]
pub struct TextEntityData {
    /// Offset in UTF-16 code units to the start of the entity
    pub offset: usize,
    /// Length of the entity in UTF-16 code units
    pub length: usize,
    /// Data of the entity from text
    pub data: String,
}

/// An error when parsing entities
#[derive(Debug, PartialEq, Eq, Structural)]
pub enum ParseTextError {
    /// Offset is out of text bounds
    BadOffset(Integer),
    /// Length is out of text bounds: negative, or reaching past the end of the text
    BadLength(Integer),
    /// URL is required for text_link entity
    NoUrl,
    /// User is required for text_mention entity
    NoUser,
    /// Can not get UTF-16 text data: the entity splits a surrogate pair
    FromUtf16,
}

// ---------------------------------------------------------------------------
// Bot commands: the command, then the bot name after the first '@'
// ---------------------------------------------------------------------------

/// Splits the text of a bot command at its first '@' into the command and the bot name.
pub open spec fn split_bot_command(s: Seq<char>) -> (Seq<char>, Option<Seq<char>>)
    decreases s.len(),
{
    if s.len() == 0 {
        (seq![], None)
    } else if s[0] == '@' {
        (seq![], Some(s.drop_first()))
    } else {
        let rest = split_bot_command(s.drop_first());
        (seq![s[0]] + rest.0, rest.1)
    }
}

/// Splitting a command keeps every character: the command, then '@' and the bot name if any,
/// give back the text, and the command holds no '@'.
pub proof fn lemma_split_bot_command(s: Seq<char>)
    ensures
        ({
            let (cmd, bot) = split_bot_command(s);
            &&& !cmd.contains('@')
            &&& match bot {
                Some(b) => cmd + seq!['@'] + b == s,
                None => cmd == s,
            }
        }),
    decreases s.len(),
{
    if s.len() == 0 {
    } else if s[0] == '@' {
        assert(seq!['@'] + s.drop_first() =~= s);
        assert(Seq::<char>::empty() + seq!['@'] =~= seq!['@']);
    } else {
        lemma_split_bot_command(s.drop_first());
        let rest = split_bot_command(s.drop_first());
        let cmd = seq![s[0]] + rest.0;
        assert forall|i: int| 0 <= i < cmd.len() implies cmd[i] != '@' by {
            if i > 0 {
                assert(cmd[i] == rest.0[i - 1]);
                assert(!rest.0.contains('@'));
            }
        }
        match rest.1 {
            Some(b) => {
                assert(cmd + seq!['@'] + b =~= seq![s[0]] + (rest.0 + seq!['@'] + b));
            },
            None => {},
        }
        assert(seq![s[0]] + s.drop_first() =~= s);
    }
}

proof fn lemma_split_skip_prefix(s: Seq<char>, i: int)
    requires
        0 <= i <= s.len(),
        forall|j: int| 0 <= j < i ==> s[j] != '@',
    ensures
        split_bot_command(s) == (s.take(i) + split_bot_command(s.skip(i)).0, split_bot_command(
            s.skip(i),
        ).1),
    decreases i,
{
    if i == 0 {
        assert(s.skip(0) =~= s);
        assert(s.take(0) + split_bot_command(s).0 =~= split_bot_command(s).0);
    } else {
        let t = s.drop_first();
        assert forall|j: int| 0 <= j < i - 1 implies t[j] != '@' by {
            assert(t[j] == s[j + 1]);
        }
        lemma_split_skip_prefix(t, i - 1);
        assert(t.skip(i - 1) =~= s.skip(i));
        assert(seq![s[0]] + (t.take(i - 1) + split_bot_command(s.skip(i)).0) =~= s.take(i)
            + split_bot_command(s.skip(i)).0);
    }
}

/// Splits a bot command at its first '@'.
fn split_command(s: &str) -> (r: (String, Option<String>))
    ensures
        (r.0@, opt_view(r.1)) == split_bot_command(s@),
{
    let mut command = String::new();
    let mut bot = String::new();
    let mut found = false;
    let ghost mut at: int = 0;
    proof {
        broadcast use vstd::string::group_string_axioms;
    }
    for c in it: s.chars()
        invariant
            it.seq() == s@,
            0 <= at <= it.index() <= s@.len(),
            !found ==> bot@ == Seq::<char>::empty(),
            !found ==> command@ == s@.take(it.index() as int) && forall|j: int|
                0 <= j < it.index() ==> s@[j] != '@',
            found ==> command@ == s@.take(at) && at < it.index() && s@[at] == '@' && (forall|j: int|
                0 <= j < at ==> s@[j] != '@') && bot@ == s@.subrange(at + 1, it.index() as int),
    {
        let ghost i = it.index() as int;
        proof {
            assert(c == s@[i]);
        }
        if found {
            push_char(&mut bot, c);
            proof {
                assert(bot@ =~= s@.subrange(at + 1, i + 1));
            }
        } else if c == '@' {
            found = true;
            proof {
                at = i;
                assert(bot@ =~= s@.subrange(at + 1, i + 1));
            }
        } else {
            push_char(&mut command, c);
            proof {
                assert(command@ =~= s@.take(i + 1));
            }
        }
    }
    proof {
        let n = s@.len() as int;
        if !found {
            lemma_split_skip_prefix(s@, n);
            assert(s@.skip(n) =~= Seq::<char>::empty());
            assert(s@.take(n) + Seq::<char>::empty() =~= s@.take(n));
            assert(s@.take(n) =~= s@);
        } else {
            lemma_split_skip_prefix(s@, at);
            let t = s@.skip(at);
            assert(t.len() > 0);
            assert(t[0] == '@');
            assert(t.drop_first() =~= s@.subrange(at + 1, n));
            assert(s@.take(at) + Seq::<char>::empty() =~= s@.take(at));
        }
    }
    if found {
        (command, Some(bot))
    } else {
        (command, None)
    }
}

// ---------------------------------------------------------------------------
// Entities
// ---------------------------------------------------------------------------

/// The data of any text entity.
pub open spec fn entity_data(e: TextEntity) -> TextEntityData {
    match e {
        TextEntity::Bold(d) => d,
        TextEntity::BotCommand(c) => c.data,
        TextEntity::Cashtag(d) => d,
        TextEntity::Code(d) => d,
        TextEntity::Email(d) => d,
        TextEntity::Hashtag(d) => d,
        TextEntity::Italic(d) => d,
        TextEntity::Mention(d) => d,
        TextEntity::PhoneNumber(d) => d,
        TextEntity::Pre(d) => d,
        TextEntity::Strikethrough(d) => d,
        TextEntity::TextLink(l) => l.data,
        TextEntity::TextMention(m) => m.data,
        TextEntity::Underline(d) => d,
        TextEntity::Url(d) => d,
    }
}

/// The raw kind that a text entity has.
pub open spec fn entity_kind(e: TextEntity) -> RawMessageEntityKind {
    match e {
        TextEntity::Bold(_) => RawMessageEntityKind::Bold,
        TextEntity::BotCommand(_) => RawMessageEntityKind::BotCommand,
        TextEntity::Cashtag(_) => RawMessageEntityKind::Cashtag,
        TextEntity::Code(_) => RawMessageEntityKind::Code,
        TextEntity::Email(_) => RawMessageEntityKind::Email,
        TextEntity::Hashtag(_) => RawMessageEntityKind::Hashtag,
        TextEntity::Italic(_) => RawMessageEntityKind::Italic,
        TextEntity::Mention(_) => RawMessageEntityKind::Mention,
        TextEntity::PhoneNumber(_) => RawMessageEntityKind::PhoneNumber,
        TextEntity::Pre(_) => RawMessageEntityKind::Pre,
        TextEntity::Strikethrough(_) => RawMessageEntityKind::Strikethrough,
        TextEntity::TextLink(_) => RawMessageEntityKind::TextLink,
        TextEntity::TextMention(_) => RawMessageEntityKind::TextMention,
        TextEntity::Underline(_) => RawMessageEntityKind::Underline,
        TextEntity::Url(_) => RawMessageEntityKind::Url,
    }
}

/// Why a raw entity does not fit the code units of a text, if it does not.
pub open spec fn entity_error(e: RawMessageEntity, units: Seq<u16>) -> Option<ParseTextError> {
    let len = units.len() as int;
    let limit = e.offset + e.length;
    if e.offset > len || e.offset < 0 {
        Some(ParseTextError::BadOffset(e.offset))
    } else if e.length < 0 || limit > len {
        Some(ParseTextError::BadLength(e.length))
    } else if utf16_decode(units.subrange(e.offset as int, limit)) is None {
        Some(ParseTextError::FromUtf16)
    } else if e.kind == RawMessageEntityKind::TextLink && e.url is None {
        Some(ParseTextError::NoUrl)
    } else if e.kind == RawMessageEntityKind::TextMention && e.user is None {
        Some(ParseTextError::NoUser)
    } else {
        None
    }
}

/// The error of the first raw entity that does not fit, if any.
pub open spec fn first_entity_error(units: Seq<u16>, es: Seq<RawMessageEntity>) -> Option<ParseTextError>
    decreases es.len(),
{
    if es.len() == 0 {
        None
    } else {
        match entity_error(es[0], units) {
            Some(e) => Some(e),
            None => first_entity_error(units, es.drop_first()),
        }
    }
}

/// Why a text and its raw entities can not be parsed, if they can not.
pub open spec fn text_error(data: Seq<char>, entities: Option<Vec<RawMessageEntity>>) -> Option<
    ParseTextError,
> {
    match entities {
        Some(es) => first_entity_error(utf16(data), es@),
        None => None,
    }
}

/// A parsed entity matches its raw entity in the code units of the text: same kind, same
/// offset and length, which lie within the text (a negative length never does), its data
/// is exactly the text it covers, a bot command is split at its first '@', and a link or
/// mention keeps the URL or user of the raw entity.
pub open spec fn entity_parsed(raw: RawMessageEntity, units: Seq<u16>, e: TextEntity) -> bool {
    let d = entity_data(e);
    &&& entity_kind(e) == raw.kind
    &&& 0 <= raw.offset
    &&& 0 <= raw.length
    &&& raw.offset + raw.length <= units.len()
    &&& d.offset == raw.offset
    &&& d.length == raw.length
    &&& utf16_decode(units.subrange(raw.offset as int, raw.offset + raw.length)) == Some(
        d.data@,
    )
    &&& e matches TextEntity::BotCommand(c) ==> (c.command@, opt_view(c.bot_name)) == split_bot_command(
        d.data@,
    )
    &&& e matches TextEntity::TextLink(l) ==> raw.url == Some(l.url)
    &&& e matches TextEntity::TextMention(m) ==> raw.user == Some(m.user)
}

/// A parsed text keeps the text and has one parsed entity for each raw entity, in order
/// (none at all where the raw entities are absent or empty).
pub open spec fn text_parsed(data: String, entities: Option<Vec<RawMessageEntity>>, t: Text) -> bool {
    &&& t.data == data
    &&& match entities {
        Some(es) => if es.len() == 0 {
            t.entities is None
        } else {
            t.entities matches Some(v) && v.len() == es.len() && forall|i: int|
                0 <= i < es.len() ==> entity_parsed(#[trigger] es@[i], utf16(data@), v@[i])
        },
        None => t.entities is None,
    }
}

proof fn lemma_first_error_skip(units: Seq<u16>, es: Seq<RawMessageEntity>, i: int)
    requires
        0 <= i <= es.len(),
        forall|j: int| 0 <= j < i ==> entity_error(#[trigger] es[j], units) is None,
    ensures
        first_entity_error(units, es) == first_entity_error(units, es.skip(i)),
    decreases i,
{
    if i == 0 {
        assert(es.skip(0) =~= es);
    } else {
        let t = es.drop_first();
        assert(entity_error(es[0], units) is None);
        assert forall|j: int| 0 <= j < i - 1 implies entity_error(#[trigger] t[j], units) is None by {
            assert(t[j] == es[j + 1]);
        }
        lemma_first_error_skip(units, t, i - 1);
        assert(t.skip(i - 1) =~= es.skip(i));
    }
}

impl TextEntity {
    /// Builds a text entity from a raw entity and the data it covers
    fn from_raw(entity: RawMessageEntity, data: TextEntityData) -> (r: Result<TextEntity, ParseTextError>)
        ensures
            match r {
                Ok(e) => entity_kind(e) == entity.kind && entity_data(e) == data && (e matches TextEntity::BotCommand(
                    c,
                ) ==> (c.command@, opt_view(c.bot_name)) == split_bot_command(data.data@)) && (e matches TextEntity::TextLink(
                    l,
                ) ==> entity.url == Some(l.url)) && (e matches TextEntity::TextMention(m) ==> entity.user
                    == Some(m.user)),
                Err(err) => (entity.kind == RawMessageEntityKind::TextLink && entity.url is None && err
                    == ParseTextError::NoUrl) || (entity.kind == RawMessageEntityKind::TextMention
                    && entity.user is None && err == ParseTextError::NoUser),
            },
            r is Err <==> (entity.kind == RawMessageEntityKind::TextLink && entity.url is None) || (
            entity.kind == RawMessageEntityKind::TextMention && entity.user is None),
    {
        match entity.kind {
            RawMessageEntityKind::Bold => Ok(TextEntity::Bold(data)),
            RawMessageEntityKind::BotCommand => {
                let (command, bot_name) = split_command(data.data.as_str());
                Ok(TextEntity::BotCommand(BotCommand { command, bot_name, data }))
            },
            RawMessageEntityKind::Cashtag => Ok(TextEntity::Cashtag(data)),
            RawMessageEntityKind::Code => Ok(TextEntity::Code(data)),
            RawMessageEntityKind::Email => Ok(TextEntity::Email(data)),
            RawMessageEntityKind::Hashtag => Ok(TextEntity::Hashtag(data)),
            RawMessageEntityKind::Italic => Ok(TextEntity::Italic(data)),
            RawMessageEntityKind::Mention => Ok(TextEntity::Mention(data)),
            RawMessageEntityKind::PhoneNumber => Ok(TextEntity::PhoneNumber(data)),
            RawMessageEntityKind::Pre => Ok(TextEntity::Pre(data)),
            RawMessageEntityKind::Strikethrough => Ok(TextEntity::Strikethrough(data)),
            RawMessageEntityKind::TextLink => match entity.url {
                Some(url) => Ok(TextEntity::TextLink(TextLink { data, url })),
                None => Err(ParseTextError::NoUrl),
            },
            RawMessageEntityKind::TextMention => match entity.user {
                Some(user) => Ok(TextEntity::TextMention(TextMention { data, user })),
                None => Err(ParseTextError::NoUser),
            },
            RawMessageEntityKind::Underline => Ok(TextEntity::Underline(data)),
            RawMessageEntityKind::Url => Ok(TextEntity::Url(data)),
        }
    }
}

impl Text {
    /// Parses a text with its raw entities: each entity is checked against the bounds of the
    /// text in UTF-16 code units and gets the part of the text it covers
    #[verifier::loop_isolation(false)]
    pub fn parse(data: String, entities: Option<Vec<RawMessageEntity>>) -> (r: Result<Text, ParseTextError>)
        ensures
            match r {
                Ok(t) => text_error(data@, entities) is None && text_parsed(data, entities, t),
                Err(e) => text_error(data@, entities) == Some(e),
            },
    {
        let ghost orig = entities;
        let entities = match entities {
            Some(entities) => {
                if entities.len() == 0 {
                    None
                } else {
                    let ghost es = entities@;
                    let ghost entities_vec = entities;
                    let text = encode_utf16(data.as_str());
                    let len: usize = text.len();
                    let mut result: Vec<TextEntity> = Vec::new();
                    for entity in it: entities
                        invariant
                            it.seq() == es,
                            orig == Some(entities_vec),
                            entities_vec@ == es,
                            text@ == utf16(data@),
                            len == text@.len(),
                            result.len() == it.index(),
                            forall|j: int| 0 <= j < it.index() ==> entity_error(#[trigger] es[j], text@) is None,
                            forall|j: int|
                                0 <= j < it.index() ==> entity_parsed(#[trigger] es[j], text@, result@[j]),
                    {
                        let ghost i = it.index() as int;
                        proof {
                            assert(entity == es[i]);
                            lemma_first_error_skip(text@, es, i);
                            assert(es.skip(i)[0] == es[i]);
                        }
                        let offset = entity.offset;
                        let length = entity.length;
                        if offset < 0 || (offset as i128) > (len as i128) {
                            return Err(ParseTextError::BadOffset(offset));
                        }
                        let limit: i128 = (offset as i128) + (length as i128);
                        if length < 0 || limit > (len as i128) {
                            return Err(ParseTextError::BadLength(length));
                        }
                        let start: usize = offset as usize;
                        let end: usize = limit as usize;
                        match decode_utf16_range(&text, start, end) {
                            None => {
                                return Err(ParseTextError::FromUtf16);
                            },
                            Some(s) => {
                                let d = TextEntityData { offset: start, length: length as usize, data: s };
                                match TextEntity::from_raw(entity, d) {
                                    Ok(e) => {
                                        result.push(e);
                                    },
                                    Err(err) => {
                                        return Err(err);
                                    },
                                }
                            },
                        }
                    }
                    proof {
                        lemma_first_error_skip(text@, es, es.len() as int);
                    }
                    Some(result)
                }
            },
            None => None,
        };
        Ok(Text { data, entities })
    }
}


/// The message of a text parsing error.
pub open spec fn parse_text_error_message(e: ParseTextError) -> Seq<char> {
    match e {
        ParseTextError::BadOffset(offset) => "offset \""@ + decimal(offset as int) + "\" is out of text bounds"@,
        ParseTextError::BadLength(length) => "length \""@ + decimal(length as int) + "\" is out of text bounds"@,
        ParseTextError::NoUrl => "URL is required for text_link entity"@,
        ParseTextError::NoUser => "user is required for text_mention entity"@,
        ParseTextError::FromUtf16 => "can not get UTF-16 text data: invalid utf-16: lone surrogate found"@,
    }
}

impl ParseTextError {
    /// Returns a human-readable description of the error
    pub fn to_string(&self) -> (r: String)
        ensures
            r@ == parse_text_error_message(*self),
    {
        let mut r = String::new();
        match self {
            ParseTextError::BadOffset(offset) => {
                push_str(&mut r, "offset \"");
                push_decimal(&mut r, *offset);
                push_str(&mut r, "\" is out of text bounds");
            },
            ParseTextError::BadLength(length) => {
                push_str(&mut r, "length \"");
                push_decimal(&mut r, *length);
                push_str(&mut r, "\" is out of text bounds");
            },
            ParseTextError::NoUrl => {
                push_str(&mut r, "URL is required for text_link entity");
            },
            ParseTextError::NoUser => {
                push_str(&mut r, "user is required for text_mention entity");
            },
            ParseTextError::FromUtf16 => {
                push_str(&mut r, "can not get UTF-16 text data: invalid utf-16: lone surrogate found");
            },
        }
        assert(r@ =~= parse_text_error_message(*self));
        r
    }
}

} // verus!
