use tgbot::types::{MentionError, ParseMode, User, UserId};

fn user(first_name: &str, last_name: Option<&str>) -> User {
    User {
        id: 1,
        is_bot: false,
        first_name: first_name.to_string(),
        last_name: last_name.map(|x| x.to_string()),
        username: None,
        language_code: None,
    }
}

#[test]
fn get_user_full_name() {
    let user = user("first", Some("last"));
    assert_eq!(user.get_full_name(), "first last");

    let user = self::user("first", None);
    assert_eq!(user.get_full_name(), "first");
}

#[test]
fn get_user_mention() {
    let user = user(r#"_*[]()~`>#+-=|{}.!<&"#, None);
    assert_eq!(
        user.get_mention(ParseMode::Html).unwrap(),
        r#"<a href="tg://user?id=1">_*[]()~`&gt;#+-=|{}.!&lt;&amp;</a>"#
    );
    assert_eq!(
        user.get_mention(ParseMode::MarkdownV2).unwrap(),
        r#"[\_\*\[\]\(\)\~\`\>\#\+\-\=\|\{\}\.\!<&](tg://user?id=1)"#
    );
    assert!(user.get_mention(ParseMode::Markdown).is_err());
}

#[test]
fn user_id() {
    let username = UserId::from("username");
    if let UserId::Username(username) = username {
        assert_eq!(username, "username");
    } else {
        panic!("Unexpected username: {:?}", username);
    }

    let username = UserId::from(String::from("username"));
    if let UserId::Username(username) = username {
        assert_eq!(username, "username");
    } else {
        panic!("Unexpected username: {:?}", username);
    }

    let user_id = UserId::from(1);
    if let UserId::Id(user_id) = user_id {
        assert_eq!(user_id, 1);
    } else {
        panic!("Unexpected user_id: {:?}", user_id);
    }
}

#[test]
fn user_link_and_markdown_error() {
    let user = user("name", None);
    assert_eq!(user.get_link(), "tg://user?id=1");
    match user.get_mention(ParseMode::Markdown) {
        Err(err) => {
            assert!(matches!(err, MentionError::UnsupportedParseMode(ParseMode::Markdown)));
            assert_eq!(err.to_string(), "can not mention with Markdown parse mode");
        }
        Ok(text) => panic!("Unexpected mention: {}", text),
    }
}
