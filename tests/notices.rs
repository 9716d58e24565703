use twitch_discord_moderation::notice::{decimal, join, moderation_notice, signed_decimal, ModAction, TermKind};

fn s(x: &str) -> String {
    x.to_string()
}

#[test]
fn decimal_digits() {
    assert_eq!(decimal(0), "0");
    assert_eq!(decimal(7), "7");
    assert_eq!(decimal(1234567890), "1234567890");
    assert_eq!(decimal(u64::MAX), "18446744073709551615");
    assert_eq!(signed_decimal(-42), "-42");
    assert_eq!(signed_decimal(i64::MIN), "-9223372036854775808");
    assert_eq!(signed_decimal(1700000000), "1700000000");
}

#[test]
fn join_with_commas() {
    assert_eq!(join(&vec![]), "");
    assert_eq!(join(&vec![s("a")]), "a");
    assert_eq!(join(&vec![s("a"), s("b"), s("c")]), "a, b, c");
}

#[test]
fn ban_notice_with_reason() {
    let a = ModAction::Ban { user_id: s("42"), user_login: s("bad_user"), reason: Some(s("spam_bot")) };
    let card = "[bad_user](<https://www.twitch.tv/popout/chan/viewercard/bad_user?popout=>)";
    assert_eq!(
        moderation_notice("chan", "mod1", &a).unwrap(),
        format!("🏝️_Twitch Moderation_ |\n*mod1*: /ban {card}\n*{card}:42* is now banned\nreason: spam\\_bot")
    );
}

#[test]
fn timeout_notice_gives_discord_timestamp() {
    let a = ModAction::Timeout { user_id: s("1"), user_login: s("u"), expires_at: 1700000000, reason: None };
    let card = "[u](<https://www.twitch.tv/popout/my\\_chan/viewercard/u?popout=>)";
    assert_eq!(
        moderation_notice("my_chan", "m", &a).unwrap(),
        format!("🔨_Twitch Moderation_ |\n*m*: /timeout {card}\n*{card}:1* has been timed out until <t:1700000000>")
    );
}

#[test]
fn delete_notice_escapes_the_message() {
    let a = ModAction::Delete { user_id: s("9"), user_login: s("u"), message_body: s("*hi*") };
    let card = "[u](<https://www.twitch.tv/popout/c/viewercard/u?popout=>)";
    assert_eq!(
        moderation_notice("c", "m", &a).unwrap(),
        format!("❌_Twitch Moderation_ |\n*m*: /delete {card} ||\\*hi\\*||\n*{card}:9* message deleted")
    );
}

#[test]
fn mode_notices() {
    assert_eq!(
        moderation_notice("c", "m", &ModAction::Followers { follow_duration_minutes: 10 }).unwrap(),
        "🔒_Twitch Moderation_ |\n*m*: /followers 10m\nFollowers-only mode is now enabled for 10 minutes"
    );
    assert_eq!(
        moderation_notice("c", "m", &ModAction::Slow { wait_time_seconds: 30 }).unwrap(),
        "🔒_Twitch Moderation_ |\n*m*: /slow 30s\nSlow mode is now enabled with 30 seconds"
    );
    assert_eq!(
        moderation_notice("c", "m", &ModAction::EmoteOnly).unwrap(),
        "🔒_Twitch Moderation_ |\n*m*: /emoteonly\nEmote-only mode is now enabled"
    );
    assert_eq!(
        moderation_notice("c", "m", &ModAction::SubscribersOff).unwrap(),
        "🔒_Twitch Moderation_ |\n*m*: /subscribersoff\nSubscribers-only mode is now disabled"
    );
}

#[test]
fn raid_and_unban_request_notices() {
    let card = "[u](<https://www.twitch.tv/popout/c/viewercard/u?popout=>)";
    let raid = ModAction::Raid { user_id: s("5"), user_login: s("u"), viewer_count: 321 };
    assert_eq!(
        moderation_notice("c", "m", &raid).unwrap(),
        format!("🔨_Twitch Moderation_ |\n*m*: /raid {card} 321\n*{card}:5* is now being raided")
    );
    let deny = ModAction::DenyUnbanRequest { user_id: s("5"), user_login: s("u"), moderator_message: s("no-way") };
    assert_eq!(
        moderation_notice("c", "m", &deny).unwrap(),
        format!("🔨_Twitch Moderation_ |\n*m*: /deny {card} : no\\-way\n*{card}:5* unban was denied")
    );
}

#[test]
fn term_notices() {
    let a = ModAction::Terms { kind: TermKind::Known { add: true, blocked: true }, from_automod: true, terms: vec![s("x"), s("y")] };
    assert_eq!(
        moderation_notice("c", "m", &a).unwrap(),
        "🔨_Twitch Moderation_ |\n*m*: /temp_term_add_block x, y\nTerms temp_term_add_blocked temporarily: x, y"
    );
    let b = ModAction::Terms { kind: TermKind::Unknown(s("unknown_x")), from_automod: false, terms: vec![s("z")] };
    assert_eq!(
        moderation_notice("c", "m", &b).unwrap(),
        "🔨_Twitch Moderation_ |\n*m*: /unknown_x z\nTerms unknown_xed: z"
    );
}

#[test]
fn warn_notice_cites_rules() {
    let card = "[u](<https://www.twitch.tv/popout/c/viewercard/u?popout=>)";
    let a = ModAction::Warn {
        user_id: s("3"),
        user_login: s("u"),
        reason: Some(s("be nice")),
        chat_rules_cited: Some(vec![s("rule 1"), s("rule 2")]),
    };
    assert_eq!(
        moderation_notice("c", "m", &a).unwrap(),
        format!("🔨_Twitch Moderation_ |\n*m*: /warn {card}\n*{card}:3* has been warned for breaking rules: rule 1, rule 2\nreason: be nice")
    );
}

#[test]
fn shared_chat_and_unknown_get_no_notice() {
    assert!(moderation_notice("c", "m", &ModAction::SharedChat).is_none());
    assert!(moderation_notice("c", "m", &ModAction::Unknown).is_none());
}
