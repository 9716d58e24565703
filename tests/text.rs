use twitch_discord_moderation::fields::{EventFieldVisitor, MessageState};
use twitch_discord_moderation::notify::{device_notice, streamcard_link, term_action_name};
use twitch_discord_moderation::sanitize::{escape, Sanitize};
use twitch_discord_moderation::token::{is_token, Secret, TokenError};

#[test]
fn token_of_thirty_chars_is_accepted() {
    let s = "abcdefghijklmnopqrstuvwxyz0123";
    let t = is_token(s).unwrap();
    assert_eq!(t.secret(), s);
}

#[test]
fn token_with_oauth_prefix_is_refused() {
    assert_eq!(is_token("oauth:abcdefghijklmnopqrstuvwx").err(), Some(TokenError::OauthPrefix));
    assert_eq!(is_token("oauth:").err(), Some(TokenError::OauthPrefix));
}

#[test]
fn token_of_wrong_length_is_refused() {
    assert_eq!(is_token("short").err(), Some(TokenError::WrongLength));
    assert_eq!(is_token("").err(), Some(TokenError::WrongLength));
    assert_eq!(is_token("abcdefghijklmnopqrstuvwxyz01234").err(), Some(TokenError::WrongLength));
    assert_eq!(is_token("oauth").err(), Some(TokenError::WrongLength));
}

#[test]
fn secret_is_masked() {
    let s = Secret::new("hunter2");
    assert_eq!(s.masked(), "[secret]");
    assert_eq!(s.secret(), "hunter2");
}

#[test]
fn escape_puts_backslash_before_each_markdown_token() {
    assert_eq!(escape("a_b*c`d~e#f+g-h"), "a\\_b\\*c\\`d\\~e\\#f\\+g\\-h");
    assert_eq!(escape("__"), "\\_\\_");
}

#[test]
fn escape_keeps_plain_text() {
    assert_eq!(escape("plain text ünïcode"), "plain text ünïcode");
    assert_eq!(escape(""), "");
}

#[test]
fn sanitize_works_on_strings_and_slices() {
    let owned = String::from("mod_name");
    assert_eq!(owned.sanitize(), "mod\\_name");
    assert_eq!("x-y".sanitize(), "x\\-y");
}

#[test]
fn streamcard_link_escapes_the_channel() {
    assert_eq!(
        streamcard_link("my_chan", "someone"),
        "[someone](<https://www.twitch.tv/popout/my\\_chan/viewercard/someone?popout=>)"
    );
}

#[test]
fn term_action_names() {
    assert_eq!(term_action_name(true, true, true), "temp_term_add_block");
    assert_eq!(term_action_name(true, false, false), "term_add_permit");
    assert_eq!(term_action_name(false, true, false), "temp_term_remove_permit");
    assert_eq!(term_action_name(false, false, true), "term_remove_block");
}

#[test]
fn device_notice_names_url_and_code() {
    assert_eq!(
        device_notice("https://www.twitch.tv/activate", "ABCD-EFGH"),
        "Please visit <https://www.twitch.tv/activate> and enter the code: `ABCD-EFGH` to authenticate `twitch_discord_moderation` with twitch!"
    );
}

#[test]
fn message_goes_first_then_fields() {
    let mut v = EventFieldVisitor::new();
    v.record_field("a: 1");
    assert_eq!(v.message, "a: 1");
    assert_eq!(v.message_visited, MessageState::NotSeen);
    v.record_message(String::from("hello"));
    assert_eq!(v.message, "hello - a: 1");
    assert_eq!(v.message_visited, MessageState::Processed);
    v.record_field("b: 2");
    assert_eq!(v.message, "hello - a: 1, b: 2");
}

#[test]
fn first_field_after_message_gets_a_dash() {
    let mut v = EventFieldVisitor::new();
    v.record_message(String::from("started"));
    assert_eq!(v.message_visited, MessageState::JustVisited);
    v.record_field("x: 1");
    assert_eq!(v.message, "started - x: 1");
    assert_eq!(v.message_visited, MessageState::Processed);
    v.record_field("y: 2");
    assert_eq!(v.message, "started - x: 1, y: 2");
}
