use twitch_discord_moderation::frame::{decode, Frame};
use twitch_discord_moderation::session::{ConnectionTarget, SessionError, SessionFields};
use twitch_discord_moderation::stream::{Action, Fault, Input, Phase, StreamLoop};
use twitch_discord_moderation::subscriptions::{
    channel_lookup, moderation_scopes, moderation_target, plan_subscriptions, ChannelLookup,
    Subscription, SubscriptionError, Target,
};

const URL: &str = "wss://eventsub.wss.twitch.tv/ws";

fn fields(id: &str, keepalive: Option<i64>, url: Option<&str>) -> SessionFields {
    SessionFields {
        id: id.to_string(),
        keepalive_timeout_seconds: keepalive,
        reconnect_url: url.map(|u| u.to_string()),
    }
}

fn streaming(id: &str) -> StreamLoop {
    let mut lp = StreamLoop::new(ConnectionTarget::new(URL.to_string(), 60));
    assert!(matches!(lp.step(Input::Connected(0)), Action::Nothing));
    match lp.step(Input::Frame(1, Frame::Session(fields(id, Some(10), None), false))) {
        Action::EnsureSubscriptions(s) => assert_eq!(s, id),
        other => panic!("unexpected {:?}", other),
    }
    assert_eq!(lp.phase, Phase::Streaming);
    lp
}

#[test]
fn welcome_gives_session_with_its_id() {
    let t = ConnectionTarget::new(URL.to_string(), 60);
    let (s, t2) = t.negotiate(&fields("abc123", Some(60), None), false).unwrap();
    assert_eq!(s.id, "abc123");
    assert_eq!(s.keepalive_timeout_seconds, 60);
    assert_eq!(t2.url, URL);
    assert_eq!(t2.keepalive_timeout_seconds, 60);
}

#[test]
fn welcome_keeps_keepalive_when_not_given() {
    let t = ConnectionTarget::new(URL.to_string(), 42);
    let (s, t2) = t.negotiate(&fields("x", None, None), false).unwrap();
    assert_eq!(s.keepalive_timeout_seconds, 42);
    assert_eq!(t2.keepalive_timeout_seconds, 42);
}

#[test]
fn negotiation_errors() {
    let t = ConnectionTarget::new(URL.to_string(), 60);
    assert_eq!(t.negotiate(&fields("", Some(10), None), false).err(), Some(SessionError::EmptySessionId));
    assert_eq!(t.negotiate(&fields("a", Some(0), None), false).err(), Some(SessionError::BadKeepalive));
    assert_eq!(t.negotiate(&fields("a", Some(-5), None), true).err(), Some(SessionError::BadKeepalive));
    assert_eq!(
        t.negotiate(&fields("a", None, Some("not a url")), true).err(),
        Some(SessionError::BadReconnectUrl)
    );
}

#[test]
fn only_reconnect_frames_move_the_url() {
    let t = ConnectionTarget::new(URL.to_string(), 60);
    let (_, w) = t.negotiate(&fields("a", None, Some("wss://other.example/ws")), false).unwrap();
    assert_eq!(w.url, URL);
    let (_, r) = t.negotiate(&fields("a", None, Some("wss://other.example/ws")), true).unwrap();
    assert_eq!(r.url, "wss://other.example/ws");
    let (_, n) = t.negotiate(&fields("a", None, Some("wss://Other.Example")), true).unwrap();
    assert_eq!(n.url, "wss://other.example/");
}

#[test]
fn keepalives_within_timeout_never_reconnect() {
    let mut lp = streaming("s1");
    for t in [5u64, 14, 23, 32, 41] {
        assert!(matches!(lp.step(Input::Frame(t, Frame::Keepalive)), Action::Nothing));
        assert!(matches!(lp.step(Input::Silence(t + 9)), Action::Nothing));
        assert_eq!(lp.phase, Phase::Streaming);
    }
    assert_eq!(lp.last_frame_at, 41);
}

#[test]
fn silence_past_deadline_reconnects_once() {
    let mut lp = streaming("s1");
    match lp.step(Input::Silence(11)) {
        Action::Reconnect(u) => assert_eq!(u, URL),
        other => panic!("unexpected {:?}", other),
    }
    assert_eq!(lp.phase, Phase::Reconnecting);
    assert!(lp.session_id.is_none());
    assert!(matches!(lp.step(Input::Silence(21)), Action::Nothing));
    assert!(matches!(lp.step(Input::Silence(31)), Action::Nothing));
    assert_eq!(lp.phase, Phase::Reconnecting);
}

#[test]
fn scenario_welcome_then_one_create_call() {
    let mut lp = StreamLoop::new(ConnectionTarget::new(URL.to_string(), 60));
    lp.step(Input::Connected(0));
    let frame = decode(r#"{"metadata":{"message_id":"m","message_type":"session_welcome","message_timestamp":"2023-07-19T14:56:51.634234626Z"},"payload":{"session":{"id":"abc123","status":"connected","connected_at":"2023-07-19T14:56:51.616329898Z","keepalive_timeout_seconds":60,"reconnect_url":null}}}"#).unwrap();
    let sid = match lp.step(Input::Frame(1, frame)) {
        Action::EnsureSubscriptions(s) => s,
        other => panic!("unexpected {:?}", other),
    };
    assert_eq!(sid, "abc123");
    assert_eq!(lp.target.keepalive_timeout_seconds, 60);
    let targets = vec![moderation_target("423374343".to_string())];
    let plan = plan_subscriptions(&sid, &moderation_scopes(), &targets, &vec![]).unwrap();
    assert_eq!(plan, vec![0]);
}

#[test]
fn scenario_reset_then_resume_on_new_session() {
    let mut lp = streaming("old");
    match lp.step(Input::Reset) {
        Action::Reconnect(u) => assert_eq!(u, URL),
        other => panic!("unexpected {:?}", other),
    }
    assert!(matches!(lp.step(Input::Connected(20)), Action::Nothing));
    assert_eq!(lp.phase, Phase::AwaitingWelcome);
    match lp.step(Input::Frame(21, Frame::Session(fields("new", Some(10), None), false))) {
        Action::EnsureSubscriptions(s) => assert_eq!(s, "new"),
        other => panic!("unexpected {:?}", other),
    }
    assert_eq!(lp.phase, Phase::Streaming);
    assert_eq!(lp.session_id.as_deref(), Some("new"));
    assert!(lp.fault.is_none());
}

#[test]
fn reconnect_frame_moves_the_loop_to_the_new_url() {
    let mut lp = streaming("s1");
    match lp.step(Input::Frame(3, Frame::Session(fields("s1", None, Some("wss://next.example/ws")), true))) {
        Action::Reconnect(u) => assert_eq!(u, "wss://next.example/ws"),
        other => panic!("unexpected {:?}", other),
    }
    assert_eq!(lp.phase, Phase::Reconnecting);
    assert_eq!(lp.target.url, "wss://next.example/ws");
}

#[test]
fn fatal_inputs_stop_the_loop() {
    let mut a = streaming("s");
    assert!(matches!(a.step(Input::Close), Action::Stop(Fault::Closed)));
    assert_eq!(a.phase, Phase::Failed);
    assert!(matches!(a.step(Input::Connected(5)), Action::Nothing));
    let mut b = streaming("s");
    assert!(matches!(b.step(Input::Frame(2, Frame::Revocation)), Action::Stop(Fault::Revoked)));
    let mut c = streaming("s");
    assert!(matches!(c.step(Input::TransportError), Action::Stop(Fault::Transport)));
    let mut d = StreamLoop::new(ConnectionTarget::new(URL.to_string(), 60));
    assert!(matches!(d.step(Input::ConnectFailed), Action::Stop(Fault::ConnectFailed)));
    let mut e = streaming("s");
    assert!(matches!(
        e.step(Input::Frame(2, Frame::Session(fields("", None, None), false))),
        Action::Stop(Fault::Session(SessionError::EmptySessionId))
    ));
}

#[test]
fn awaiting_welcome_ignores_other_frames() {
    let mut lp = StreamLoop::new(ConnectionTarget::new(URL.to_string(), 60));
    lp.step(Input::Connected(0));
    assert!(matches!(lp.step(Input::Frame(1, Frame::Revocation)), Action::Nothing));
    assert!(matches!(lp.step(Input::Frame(2, Frame::Keepalive)), Action::Nothing));
    assert!(matches!(lp.step(Input::Frame(3, Frame::Notification(None))), Action::Nothing));
    assert_eq!(lp.phase, Phase::AwaitingWelcome);
    assert!(matches!(lp.step(Input::Close), Action::Stop(Fault::Closed)));
}

#[test]
fn unknown_frames_do_not_stop_streaming() {
    let mut lp = streaming("s");
    assert!(matches!(lp.step(Input::Frame(3, Frame::Notification(None))), Action::Nothing));
    assert!(matches!(lp.step(Input::Frame(4, Frame::Other)), Action::Nothing));
    assert_eq!(lp.phase, Phase::Streaming);
    assert_eq!(lp.last_frame_at, 4);
    assert!(matches!(lp.step(Input::Ended), Action::Reconnect(_)));
}

fn sub(enabled: bool, session: Option<&str>, broadcaster: &str, topic: &str) -> Subscription {
    Subscription {
        enabled,
        session_id: session.map(|s| s.to_string()),
        broadcaster_id: broadcaster.to_string(),
        topic: topic.to_string(),
    }
}

#[test]
fn reasserting_a_served_target_issues_no_create() {
    let targets = vec![moderation_target("1".to_string()), moderation_target("2".to_string())];
    let existing = vec![
        sub(true, Some("s"), "1", "channel.moderate"),
        sub(true, Some("old"), "2", "channel.moderate"),
        sub(false, Some("s"), "2", "channel.moderate"),
        sub(true, Some("s"), "2", "channel.follow"),
        sub(true, None, "2", "channel.moderate"),
    ];
    let plan = plan_subscriptions(&"s".to_string(), &moderation_scopes(), &targets, &existing).unwrap();
    assert_eq!(plan, vec![1]);
    let all = vec![sub(true, Some("s"), "1", "channel.moderate"), sub(true, Some("s"), "2", "channel.moderate")];
    let none = plan_subscriptions(&"s".to_string(), &moderation_scopes(), &targets, &all).unwrap();
    assert!(none.is_empty());
}

#[test]
fn missing_scope_fails_fast() {
    let targets = vec![moderation_target("1".to_string())];
    let mut granted = moderation_scopes();
    granted.pop();
    assert_eq!(
        plan_subscriptions(&"s".to_string(), &granted, &targets, &vec![]).err(),
        Some(SubscriptionError::InsufficientScope)
    );
    let t = Target { broadcaster_id: "1".to_string(), topic: "x".to_string(), required_scopes: vec![] };
    assert_eq!(plan_subscriptions(&"s".to_string(), &vec![], &vec![t], &vec![]).unwrap(), vec![0]);
}

#[test]
fn moderation_scope_list() {
    let s = moderation_scopes();
    assert_eq!(s.len(), 8);
    assert_eq!(s[0], "moderator:read:blocked_terms");
    assert_eq!(s[7], "moderator:read:warnings");
    let t = moderation_target("9".to_string());
    assert_eq!(t.topic, "channel.moderate");
}

#[test]
fn channel_lookup_order() {
    assert_eq!(channel_lookup(Some("1".into()), Some("a".into())), ChannelLookup::ById("1".into()));
    assert_eq!(channel_lookup(None, Some("a".into())), ChannelLookup::ByLogin("a".into()));
    assert_eq!(channel_lookup(None, None), ChannelLookup::TokenOwner);
}

#[test]
fn malformed_control_frame_is_fatal() {
    let mut lp = streaming("s");
    assert!(matches!(lp.step(Input::Undecodable), Action::Stop(Fault::Malformed)));
    assert_eq!(lp.phase, Phase::Failed);
    let mut w = StreamLoop::new(ConnectionTarget::new(URL.to_string(), 60));
    w.step(Input::Connected(0));
    assert!(matches!(w.step(Input::Undecodable), Action::Stop(Fault::Malformed)));
}

#[test]
fn failed_subscription_assertion_reconnects() {
    let mut lp = streaming("s");
    match lp.step(Input::SubscriptionFailed) {
        Action::Reconnect(u) => assert_eq!(u, URL),
        other => panic!("unexpected {:?}", other),
    }
    assert_eq!(lp.phase, Phase::Reconnecting);
    assert!(lp.fault.is_none());
    lp.step(Input::Connected(30));
    match lp.step(Input::Frame(31, Frame::Session(fields("s2", None, None), false))) {
        Action::EnsureSubscriptions(id) => assert_eq!(id, "s2"),
        other => panic!("unexpected {:?}", other),
    }
}

#[test]
fn each_elapsed_deadline_reconnects_once() {
    let mut lp = streaming("s");
    let mut reconnects = 0;
    let mut last = 1u64;
    for _ in 0..3 {
        let t = last + 10;
        if let Action::Reconnect(_) = lp.step(Input::Silence(t)) {
            reconnects += 1;
        }
        assert!(matches!(lp.step(Input::Silence(t + 1)), Action::Nothing));
        assert!(matches!(lp.step(Input::Connected(t + 2)), Action::Nothing));
        assert_eq!(lp.phase, Phase::AwaitingWelcome);
        last = t + 2;
    }
    assert_eq!(reconnects, 3);
}

#[test]
fn reset_then_new_session_then_events_in_order() {
    let texts = [
        r#"{"metadata":{"message_id":"1","message_type":"notification","message_timestamp":"2024-02-23T21:12:33Z","subscription_type":"channel.moderate","subscription_version":"2"},"payload":{"subscription":{"id":"7297f7eb-3bf5-461f-8ae6-7cd7781ebce3","status":"enabled","type":"channel.moderate","version":"2","cost":0,"condition":{"broadcaster_user_id":"1","moderator_user_id":"1"},"transport":{"method":"websocket","session_id":"new"},"created_at":"2024-02-23T21:12:33Z"},"event":{"broadcaster_user_id":"1","broadcaster_user_login":"b","broadcaster_user_name":"b","moderator_user_id":"2","moderator_user_login":"first","moderator_user_name":"first","action":"emoteonly","followers":null,"slow":null,"vip":null,"unvip":null,"warn":null,"mod":null,"unmod":null,"ban":null,"unban":null,"timeout":null,"untimeout":null,"raid":null,"unraid":null,"delete":null,"automod_terms":null,"unban_request":null,"shared_chat_ban":null,"shared_chat_unban":null,"shared_chat_timeout":null,"shared_chat_untimeout":null,"shared_chat_delete":null}}}"#,
        r#"{"metadata":{"message_id":"2","message_type":"notification","message_timestamp":"2024-02-23T21:12:34Z","subscription_type":"channel.moderate","subscription_version":"2"},"payload":{"subscription":{"id":"7297f7eb-3bf5-461f-8ae6-7cd7781ebce3","status":"enabled","type":"channel.moderate","version":"2","cost":0,"condition":{"broadcaster_user_id":"1","moderator_user_id":"1"},"transport":{"method":"websocket","session_id":"new"},"created_at":"2024-02-23T21:12:33Z"},"event":{"broadcaster_user_id":"1","broadcaster_user_login":"b","broadcaster_user_name":"b","moderator_user_id":"3","moderator_user_login":"second","moderator_user_name":"second","action":"emoteonlyoff","followers":null,"slow":null,"vip":null,"unvip":null,"warn":null,"mod":null,"unmod":null,"ban":null,"unban":null,"timeout":null,"untimeout":null,"raid":null,"unraid":null,"delete":null,"automod_terms":null,"unban_request":null,"shared_chat_ban":null,"shared_chat_unban":null,"shared_chat_timeout":null,"shared_chat_untimeout":null,"shared_chat_delete":null}}}"#,
    ];
    let mut lp = streaming("old");
    assert!(matches!(lp.step(Input::Reset), Action::Reconnect(_)));
    lp.step(Input::Connected(20));
    assert!(matches!(
        lp.step(Input::Frame(21, Frame::Session(fields("new", None, None), false))),
        Action::EnsureSubscriptions(_)
    ));
    let mut seen = vec![];
    for (i, t) in texts.iter().enumerate() {
        match lp.step(Input::Frame(22 + i as u64, decode(t).unwrap())) {
            Action::Publish(twitch_discord_moderation::frame::Events::ChannelModerateV2(p, _)) => {
                seen.push(p.moderator_user_login.to_string())
            }
            other => panic!("unexpected {:?}", other),
        }
    }
    assert_eq!(seen, vec!["first".to_string(), "second".to_string()]);
    assert_eq!(lp.session_id.as_deref(), Some("new"));
    assert_eq!(lp.phase, Phase::Streaming);
}
