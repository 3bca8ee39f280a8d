use vstd::prelude::*;
use crate::json::{json_member, json_object, json_opt_member, json_string, opt_json_int, opt_json_string, JsonWriter};
use crate::types::{
    input_media::opt_parse_mode_json,
    login_url::opt_view,
    primitive::{Integer, ParseMode},
    reply_markup::{inline_keyboard::inline_keyboard_json, InlineKeyboardMarkup},
};

verus! {

/// Link to an animated GIF file
///
/// By default, this animated GIF file
/// will be sent by the user with optional caption
#[derive(Clone, Debug)]
pub struct InlineQueryResultGif {
    /// Unique identifier for this result, 1-64 bytes
    pub id: String,
    /// A valid URL for the GIF file. File size must not exceed 1MB
    pub gif_url: String,
    /// URL of the static thumbnail for the result (jpeg or gif)
    pub thumb_url: String,
    /// Width of the GIF
    pub gif_width: Option<Integer>,
    /// Height of the GIF
    pub gif_height: Option<Integer>,
    /// Duration of the GIF
    pub gif_duration: Option<Integer>,
    /// Title for the result
    pub title: Option<String>,
    /// Caption of the GIF file to be sent, 0-1024 characters
    pub caption: Option<String>,
    /// Parse mode
    pub parse_mode: Option<ParseMode>,
    /// Inline keyboard attached to the message
    pub reply_markup: Option<InlineKeyboardMarkup>,
}

impl InlineQueryResultGif {
    /// Creates a new InlineQueryResultGif with empty optional parameters
    ///
    /// # Arguments
    ///
    /// * id - Unique identifier for this result, 1-64 bytes
    /// * gif_url - A valid URL for the GIF file. File size must not exceed 1MB
    /// * thumb_url - URL of the static thumbnail for the result (jpeg or gif)
    pub fn new(id: &str, gif_url: &str, thumb_url: &str) -> (r: Self)
        ensures
            r.id@ == id@,
            r.gif_url@ == gif_url@,
            r.thumb_url@ == thumb_url@,
            r.gif_width is None,
            r.gif_height is None,
            r.gif_duration is None,
            r.title is None,
            r.caption is None,
            r.parse_mode is None,
            r.reply_markup is None,
    {
        InlineQueryResultGif {
            id: id.to_owned(),
            gif_url: gif_url.to_owned(),
            thumb_url: thumb_url.to_owned(),
            gif_width: None,
            gif_height: None,
            gif_duration: None,
            title: None,
            caption: None,
            parse_mode: None,
            reply_markup: None,
        }
    }

    /// Width of the GIF
    pub fn gif_width(self, gif_width: Integer) -> (r: Self)
        ensures
            r.gif_width == Some(gif_width),
            r.id == self.id,
            r.gif_url == self.gif_url,
            r.thumb_url == self.thumb_url,
            r.gif_height == self.gif_height,
            r.gif_duration == self.gif_duration,
            r.title == self.title,
            r.caption == self.caption,
            r.parse_mode == self.parse_mode,
            r.reply_markup == self.reply_markup,
    {
        InlineQueryResultGif { gif_width: Some(gif_width), ..self }
    }

    /// Height of the GIF
    pub fn gif_height(self, gif_height: Integer) -> (r: Self)
        ensures
            r.gif_height == Some(gif_height),
            r.id == self.id,
            r.gif_url == self.gif_url,
            r.thumb_url == self.thumb_url,
            r.gif_width == self.gif_width,
            r.gif_duration == self.gif_duration,
            r.title == self.title,
            r.caption == self.caption,
            r.parse_mode == self.parse_mode,
            r.reply_markup == self.reply_markup,
    {
        InlineQueryResultGif { gif_height: Some(gif_height), ..self }
    }

    /// Duration of the GIF
    pub fn gif_duration(self, gif_duration: Integer) -> (r: Self)
        ensures
            r.gif_duration == Some(gif_duration),
            r.id == self.id,
            r.gif_url == self.gif_url,
            r.thumb_url == self.thumb_url,
            r.gif_width == self.gif_width,
            r.gif_height == self.gif_height,
            r.title == self.title,
            r.caption == self.caption,
            r.parse_mode == self.parse_mode,
            r.reply_markup == self.reply_markup,
    {
        InlineQueryResultGif { gif_duration: Some(gif_duration), ..self }
    }

    /// Title for the result
    pub fn title(self, title: &str) -> (r: Self)
        ensures
            r.title matches Some(s) && s@ == title@,
            r.id == self.id,
            r.gif_url == self.gif_url,
            r.thumb_url == self.thumb_url,
            r.gif_width == self.gif_width,
            r.gif_height == self.gif_height,
            r.gif_duration == self.gif_duration,
            r.caption == self.caption,
            r.parse_mode == self.parse_mode,
            r.reply_markup == self.reply_markup,
    {
        InlineQueryResultGif { title: Some(title.to_owned()), ..self }
    }

    /// Caption of the GIF file to be sent, 0-1024 characters
    pub fn caption(self, caption: &str) -> (r: Self)
        ensures
            r.caption matches Some(s) && s@ == caption@,
            r.id == self.id,
            r.gif_url == self.gif_url,
            r.thumb_url == self.thumb_url,
            r.gif_width == self.gif_width,
            r.gif_height == self.gif_height,
            r.gif_duration == self.gif_duration,
            r.title == self.title,
            r.parse_mode == self.parse_mode,
            r.reply_markup == self.reply_markup,
    {
        InlineQueryResultGif { caption: Some(caption.to_owned()), ..self }
    }

    /// Parse mode
    pub fn parse_mode(self, parse_mode: ParseMode) -> (r: Self)
        ensures
            r.parse_mode == Some(parse_mode),
            r.id == self.id,
            r.gif_url == self.gif_url,
            r.thumb_url == self.thumb_url,
            r.gif_width == self.gif_width,
            r.gif_height == self.gif_height,
            r.gif_duration == self.gif_duration,
            r.title == self.title,
            r.caption == self.caption,
            r.reply_markup == self.reply_markup,
    {
        InlineQueryResultGif { parse_mode: Some(parse_mode), ..self }
    }

    /// Inline keyboard attached to the message
    pub fn reply_markup(self, reply_markup: InlineKeyboardMarkup) -> (r: Self)
        ensures
            r.reply_markup == Some(reply_markup),
            r.id == self.id,
            r.gif_url == self.gif_url,
            r.thumb_url == self.thumb_url,
            r.gif_width == self.gif_width,
            r.gif_height == self.gif_height,
            r.gif_duration == self.gif_duration,
            r.title == self.title,
            r.caption == self.caption,
            r.parse_mode == self.parse_mode,
    {
        InlineQueryResultGif { reply_markup: Some(reply_markup), ..self }
    }

}

/// The JSON of an optional inline keyboard.
pub open spec fn opt_keyboard_json(markup: Option<InlineKeyboardMarkup>) -> Option<Seq<char>> {
    match markup {
        Some(m) => Some(inline_keyboard_json(m@)),
        None => None,
    }
}

/// The members of a GIF result as an inline query result: the type `gif`, the identifier
/// and the URLs, then each optional field that is set.
pub open spec fn gif_members(g: InlineQueryResultGif) -> Seq<Seq<char>> {
    seq![
        json_member("type"@, json_string("gif"@)),
        json_member("id"@, json_string(g.id@)),
        json_member("gif_url"@, json_string(g.gif_url@)),
        json_member("thumb_url"@, json_string(g.thumb_url@)),
    ] + json_opt_member("gif_width"@, opt_json_int(g.gif_width)) + json_opt_member(
        "gif_height"@,
        opt_json_int(g.gif_height),
    ) + json_opt_member("gif_duration"@, opt_json_int(g.gif_duration)) + json_opt_member(
        "title"@,
        opt_json_string(opt_view(g.title)),
    ) + json_opt_member("caption"@, opt_json_string(opt_view(g.caption))) + json_opt_member(
        "parse_mode"@,
        opt_parse_mode_json(g.parse_mode),
    ) + json_opt_member("reply_markup"@, opt_keyboard_json(g.reply_markup))
}

impl InlineQueryResultGif {
    /// The result as a JSON object, tagged with its type
    pub fn to_json(&self) -> (r: String)
        ensures
            r@ == json_object(gif_members(*self)),
    {
        let mut w = JsonWriter::object();
        w.member_string("type", "gif");
        w.member_string("id", self.id.as_str());
        w.member_string("gif_url", self.gif_url.as_str());
        w.member_string("thumb_url", self.thumb_url.as_str());
        w.opt_int("gif_width", self.gif_width);
        w.opt_int("gif_height", self.gif_height);
        w.opt_int("gif_duration", self.gif_duration);
        w.opt_string("title", &self.title);
        w.opt_string("caption", &self.caption);
        let ghost before = w.parts();
        match self.parse_mode {
            Some(m) => {
                let j = m.to_json();
                w.member_raw("parse_mode", j.as_str());
            },
            None => {},
        }
        assert(w.parts() =~= before + json_opt_member("parse_mode"@, opt_parse_mode_json(self.parse_mode)));
        let ghost before = w.parts();
        match &self.reply_markup {
            Some(m) => {
                let j = m.to_json();
                w.member_raw("reply_markup", j.as_str());
            },
            None => {},
        }
        assert(w.parts() =~= before + json_opt_member("reply_markup"@, opt_keyboard_json(self.reply_markup)));
        assert(w.parts() =~= gif_members(*self));
        w.finish()
    }
}

} // verus!
