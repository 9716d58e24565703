//! The moderation notices posted to the chat webhook, one template per
//! kind of moderator action.
use vstd::prelude::*;
use vstd::string::*;
use crate::notify::{streamcard_link, streamcard_link_spec, term_action_name};
use crate::sanitize::{escape, escape_markdown};

verus! {

/// A change to the automod term lists.
#[derive(Debug, Clone)]
pub enum TermKind {
    /// Terms added (`add`) or removed, on the blocked list (`blocked`) or the permitted one.
    Known { add: bool, blocked: bool },
    /// A change of a kind this client does not know, under the name given.
    Unknown(String),
}

/// A moderator action, with the fields its notice shows.
#[derive(Debug, Clone)]
pub enum ModAction {
    Delete { user_id: String, user_login: String, message_body: String },
    /// A timeout that ends at `expires_at` (seconds since the Unix epoch).
    Timeout { user_id: String, user_login: String, expires_at: i64, reason: Option<String> },
    Untimeout { user_id: String, user_login: String },
    Ban { user_id: String, user_login: String, reason: Option<String> },
    Unban { user_id: String, user_login: String },
    Followers { follow_duration_minutes: u64 },
    Slow { wait_time_seconds: u64 },
    Vip { user_id: String, user_login: String },
    Unvip { user_id: String, user_login: String },
    Mod { user_id: String, user_login: String },
    Unmod { user_id: String, user_login: String },
    Raid { user_id: String, user_login: String, viewer_count: u64 },
    Unraid { user_id: String, user_login: String },
    ApproveUnbanRequest { user_id: String, user_login: String, moderator_message: String },
    DenyUnbanRequest { user_id: String, user_login: String, moderator_message: String },
    EmoteOnly,
    EmoteOnlyOff,
    FollowersOff,
    Uniquechat,
    UniquechatOff,
    SlowOff,
    Subscribers,
    SubscribersOff,
    Terms { kind: TermKind, from_automod: bool, terms: Vec<String> },
    Warn {
        user_id: String,
        user_login: String,
        reason: Option<String>,
        chat_rules_cited: Option<Vec<String>>,
    },
    /// An action in a shared chat session, which gets no notice.
    SharedChat,
    /// An action of a kind this client does not know, which gets no notice.
    Unknown,
}

/// The decimal digits of `n`.
pub open spec fn decimal_spec(n: nat) -> Seq<char>
    decreases n,
{
    if n < 10 {
        seq!["0123456789"@[n as int]]
    } else {
        decimal_spec(n / 10) + seq!["0123456789"@[(n % 10) as int]]
    }
}

/// `n` in decimal, with a minus sign when it is negative.
pub open spec fn signed_decimal_spec(n: int) -> Seq<char> {
    if n < 0 {
        "-"@ + decimal_spec((-n) as nat)
    } else {
        decimal_spec(n as nat)
    }
}

/// The texts of `items`, with a comma and a space between each two.
pub open spec fn join_spec(items: Seq<String>) -> Seq<char>
    decreases items.len(),
{
    if items.len() == 0 {
        Seq::empty()
    } else if items.len() == 1 {
        items[0]@
    } else {
        join_spec(items.drop_last()) + ", "@ + items.last()@
    }
}

/// The first line of a notice, up to the slash of the command.
pub open spec fn head_spec(icon: Seq<char>, moderator: Seq<char>) -> Seq<char> {
    icon + "_Twitch Moderation_ |\n*"@ + moderator + "*: /"@
}

/// The line that gives a reason, if there is one.
pub open spec fn reason_spec(reason: Option<String>) -> Seq<char> {
    match reason {
        Some(r) => "\nreason: "@ + escape_markdown(r@),
        None => Seq::empty(),
    }
}

/// A notice about an action on a user: the command with the user's card
/// and `args`, then the card, the user's id and `description`.
pub open spec fn user_notice_spec(
    icon: Seq<char>,
    moderator: Seq<char>,
    command: Seq<char>,
    card: Seq<char>,
    args: Seq<char>,
    user_id: Seq<char>,
    description: Seq<char>,
) -> Seq<char> {
    head_spec(icon, moderator) + command + " "@ + card + args + "\n*"@ + card + ":"@ + user_id + "* "@
        + description
}

pub open spec fn hammer() -> Seq<char> {
    "🔨"@
}

pub open spec fn island() -> Seq<char> {
    "🏝️"@
}

pub open spec fn lock() -> Seq<char> {
    "🔒"@
}

/// The name of a change to the term lists.
pub open spec fn term_name_spec(kind: TermKind, from_automod: bool) -> Seq<char> {
    match kind {
        TermKind::Known { add, blocked } => (if from_automod { "temp_"@ } else { ""@ }) + "term_"@ + (if add {
            "add_"@
        } else {
            "remove_"@
        }) + (if blocked { "block"@ } else { "permit"@ }),
        TermKind::Unknown(name) => name@,
    }
}

/// The notice that `moderator`'s `action` in `channel`'s chat gets, if any.
pub open spec fn notice_spec(channel: Seq<char>, moderator: Seq<char>, action: ModAction) -> Option<
    Seq<char>,
> {
    let card = |login: String| streamcard_link_spec(channel, login@);
    match action {
        ModAction::Delete { user_id, user_login, message_body } => Some(
            user_notice_spec("❌"@, moderator, "delete"@, card(user_login),
                " ||"@ + escape_markdown(message_body@) + "||"@, user_id@, "message deleted"@),
        ),
        ModAction::Timeout { user_id, user_login, expires_at, reason } => Some(
            user_notice_spec(hammer(), moderator, "timeout"@, card(user_login), ""@, user_id@,
                "has been timed out until <t:"@ + signed_decimal_spec(expires_at as int) + ">"@
                    + reason_spec(reason)),
        ),
        ModAction::Untimeout { user_id, user_login } => Some(
            user_notice_spec(hammer(), moderator, "untimeout"@, card(user_login), ""@, user_id@,
                "is no longer timed out"@),
        ),
        ModAction::Ban { user_id, user_login, reason } => Some(
            user_notice_spec(island(), moderator, "ban"@, card(user_login), ""@, user_id@,
                "is now banned"@ + reason_spec(reason)),
        ),
        ModAction::Unban { user_id, user_login } => Some(
            user_notice_spec(island(), moderator, "unban"@, card(user_login), ""@, user_id@,
                "is no longer banned"@),
        ),
        ModAction::Followers { follow_duration_minutes: m } => Some(
            head_spec(lock(), moderator) + "followers "@ + decimal_spec(m as nat)
                + "m\nFollowers-only mode is now enabled for "@ + decimal_spec(m as nat) + " minutes"@,
        ),
        ModAction::Slow { wait_time_seconds: s } => Some(
            head_spec(lock(), moderator) + "slow "@ + decimal_spec(s as nat)
                + "s\nSlow mode is now enabled with "@ + decimal_spec(s as nat) + " seconds"@,
        ),
        ModAction::Vip { user_id, user_login } => Some(
            user_notice_spec(hammer(), moderator, "vip"@, card(user_login), ""@, user_id@, "is now a VIP"@),
        ),
        ModAction::Unvip { user_id, user_login } => Some(
            user_notice_spec(hammer(), moderator, "unvip"@, card(user_login), ""@, user_id@,
                "is no longer a VIP"@),
        ),
        ModAction::Mod { user_id, user_login } => Some(
            user_notice_spec(hammer(), moderator, "mod"@, card(user_login), ""@, user_id@,
                "is now a moderator"@),
        ),
        ModAction::Unmod { user_id, user_login } => Some(
            user_notice_spec(hammer(), moderator, "unmod"@, card(user_login), ""@, user_id@,
                "is no longer a moderator"@),
        ),
        ModAction::Raid { user_id, user_login, viewer_count } => Some(
            user_notice_spec(hammer(), moderator, "raid"@, card(user_login),
                " "@ + decimal_spec(viewer_count as nat), user_id@, "is now being raided"@),
        ),
        ModAction::Unraid { user_id, user_login } => Some(
            user_notice_spec(hammer(), moderator, "unraid"@, card(user_login), ""@, user_id@,
                "raid was canceled"@),
        ),
        ModAction::ApproveUnbanRequest { user_id, user_login, moderator_message } => Some(
            user_notice_spec(hammer(), moderator, "approve"@, card(user_login),
                " : "@ + escape_markdown(moderator_message@), user_id@, "unban was approved"@),
        ),
        ModAction::DenyUnbanRequest { user_id, user_login, moderator_message } => Some(
            user_notice_spec(hammer(), moderator, "deny"@, card(user_login),
                " : "@ + escape_markdown(moderator_message@), user_id@, "unban was denied"@),
        ),
        ModAction::EmoteOnly => Some(head_spec(lock(), moderator) + "emoteonly\nEmote-only mode is now enabled"@),
        ModAction::EmoteOnlyOff => Some(
            head_spec(lock(), moderator) + "emoteonlyoff\nEmote-only mode is now disabled"@,
        ),
        ModAction::FollowersOff => Some(
            head_spec(lock(), moderator) + "followersoff\nFollowers-only mode is now disabled"@,
        ),
        ModAction::Uniquechat => Some(head_spec(lock(), moderator) + "uniquechat\nUnique chat is now enabled"@),
        ModAction::UniquechatOff => Some(
            head_spec(lock(), moderator) + "uniquechatoff\nUnique chat is now disabled"@,
        ),
        ModAction::SlowOff => Some(head_spec(lock(), moderator) + "slowoff\nSlow mode is now disabled"@),
        ModAction::Subscribers => Some(
            head_spec(lock(), moderator) + "subscribers\nSubscribers-only mode is now enabled"@,
        ),
        ModAction::SubscribersOff => Some(
            head_spec(lock(), moderator) + "subscribersoff\nSubscribers-only mode is now disabled"@,
        ),
        ModAction::Terms { kind, from_automod, terms } => {
            let name = term_name_spec(kind, from_automod);
            let list = join_spec(terms@);
            Some(
                head_spec(hammer(), moderator) + name + " "@ + list + "\nTerms "@ + name + "ed"@ + (if from_automod {
                    " temporarily"@
                } else {
                    ""@
                }) + ": "@ + list,
            )
        },
        ModAction::Warn { user_id, user_login, reason, chat_rules_cited } => Some(
            user_notice_spec(hammer(), moderator, "warn"@, card(user_login), ""@, user_id@,
                "has been warned"@ + match chat_rules_cited {
                    Some(rules) => " for breaking rules: "@ + join_spec(rules@),
                    None => Seq::empty(),
                } + reason_spec(reason)),
        ),
        ModAction::SharedChat | ModAction::Unknown => None,
    }
}

/// `n` in decimal.
pub fn decimal(n: u64) -> (r: String)
    ensures
        r@ == decimal_spec(n as nat),
    decreases n,
{
    let digits = "0123456789";
    proof {
        reveal_strlit("0123456789");
    }
    if n < 10 {
        let d = n as usize;
        let r = String::from_str(digits.substring_char(d, d + 1));
        assert(r@ =~= decimal_spec(n as nat));
        r
    } else {
        let mut r = decimal(n / 10);
        let d = (n % 10) as usize;
        r.append(digits.substring_char(d, d + 1));
        assert(r@ =~= decimal_spec(n as nat));
        r
    }
}

/// `n` in decimal, with a minus sign when it is negative.
pub fn signed_decimal(n: i64) -> (r: String)
    ensures
        r@ == signed_decimal_spec(n as int),
{
    if n < 0 {
        let m = (-(n as i128)) as u64;
        let mut r = String::from_str("-");
        r.append(decimal(m).as_str());
        r
    } else {
        decimal(n as u64)
    }
}

/// The texts of `items`, with a comma and a space between each two.
pub fn join(items: &Vec<String>) -> (r: String)
    ensures
        r@ == join_spec(items@),
{
    let mut out = String::new();
    let mut i: usize = 0;
    while i < items.len()
        invariant
            i <= items.len(),
            out@ == join_spec(items@.take(i as int)),
        decreases items.len() - i,
    {
        if i > 0 {
            out.append(", ");
        }
        out.append(items[i].as_str());
        proof {
            let next = items@.take(i + 1);
            assert(next.drop_last() =~= items@.take(i as int));
            assert(next.last() == items@[i as int]);
            if i == 0 {
                assert(out@ =~= items@[0]@);
            }
        }
        i = i + 1;
    }
    assert(items@.take(items.len() as int) =~= items@);
    out
}

fn head(icon: &str, moderator: &str) -> (r: String)
    ensures
        r@ == head_spec(icon@, moderator@),
{
    let mut r = String::from_str(icon);
    r.append("_Twitch Moderation_ |\n*");
    r.append(moderator);
    r.append("*: /");
    r
}

fn reason_line(reason: &Option<String>) -> (r: String)
    ensures
        r@ == reason_spec(*reason),
{
    match reason {
        Some(text) => {
            let mut r = String::from_str("\nreason: ");
            r.append(escape(text.as_str()).as_str());
            r
        },
        None => String::new(),
    }
}

fn user_notice(
    icon: &str,
    moderator: &str,
    command: &str,
    card: &str,
    args: &str,
    user_id: &str,
    description: &str,
) -> (r: String)
    ensures
        r@ == user_notice_spec(icon@, moderator@, command@, card@, args@, user_id@, description@),
{
    let mut r = head(icon, moderator);
    r.append(command);
    r.append(" ");
    r.append(card);
    r.append(args);
    r.append("\n*");
    r.append(card);
    r.append(":");
    r.append(user_id);
    r.append("* ");
    r.append(description);
    r
}

fn cat(a: &str, b: &str) -> (r: String)
    ensures
        r@ == a@ + b@,
{
    let mut r = String::from_str(a);
    r.append(b);
    r
}

fn cat3(a: &str, b: &str, c: &str) -> (r: String)
    ensures
        r@ == a@ + b@ + c@,
{
    let mut r = String::from_str(a);
    r.append(b);
    r.append(c);
    r
}

fn term_name(kind: &TermKind, from_automod: bool) -> (r: String)
    ensures
        r@ == term_name_spec(*kind, from_automod),
{
    match kind {
        TermKind::Known { add, blocked } => String::from_str(term_action_name(*add, from_automod, *blocked)),
        TermKind::Unknown(name) => name.clone(),
    }
}

/// Writes the notice that `moderator`'s `action` in `channel`'s chat gets;
/// `None` for an action in a shared chat session or of an unknown kind.
pub fn moderation_notice(channel: &str, moderator: &str, action: &ModAction) -> (r: Option<String>)
    ensures
        match notice_spec(channel@, moderator@, *action) {
            Some(t) => r is Some && r->Some_0@ == t,
            None => r is None,
        },
{
    match action {
        ModAction::Delete { user_id, user_login, message_body } => {
            let card = streamcard_link(channel, user_login.as_str());
            let args = cat3(" ||", escape(message_body.as_str()).as_str(), "||");
            Some(user_notice("❌", moderator, "delete", card.as_str(), args.as_str(), user_id.as_str(), "message deleted"))
        },
        ModAction::Timeout { user_id, user_login, expires_at, reason } => {
            let card = streamcard_link(channel, user_login.as_str());
            let mut d = cat3("has been timed out until <t:", signed_decimal(*expires_at).as_str(), ">");
            d.append(reason_line(reason).as_str());
            Some(user_notice("🔨", moderator, "timeout", card.as_str(), "", user_id.as_str(), d.as_str()))
        },
        ModAction::Untimeout { user_id, user_login } => {
            let card = streamcard_link(channel, user_login.as_str());
            Some(user_notice("🔨", moderator, "untimeout", card.as_str(), "", user_id.as_str(), "is no longer timed out"))
        },
        ModAction::Ban { user_id, user_login, reason } => {
            let card = streamcard_link(channel, user_login.as_str());
            let d = cat("is now banned", reason_line(reason).as_str());
            Some(user_notice("🏝️", moderator, "ban", card.as_str(), "", user_id.as_str(), d.as_str()))
        },
        ModAction::Unban { user_id, user_login } => {
            let card = streamcard_link(channel, user_login.as_str());
            Some(user_notice("🏝️", moderator, "unban", card.as_str(), "", user_id.as_str(), "is no longer banned"))
        },
        ModAction::Followers { follow_duration_minutes } => {
            let m = decimal(*follow_duration_minutes);
            let mut r = head("🔒", moderator);
            r.append("followers ");
            r.append(m.as_str());
            r.append("m\nFollowers-only mode is now enabled for ");
            r.append(m.as_str());
            r.append(" minutes");
            Some(r)
        },
        ModAction::Slow { wait_time_seconds } => {
            let w = decimal(*wait_time_seconds);
            let mut r = head("🔒", moderator);
            r.append("slow ");
            r.append(w.as_str());
            r.append("s\nSlow mode is now enabled with ");
            r.append(w.as_str());
            r.append(" seconds");
            Some(r)
        },
        ModAction::Vip { user_id, user_login } => {
            let card = streamcard_link(channel, user_login.as_str());
            Some(user_notice("🔨", moderator, "vip", card.as_str(), "", user_id.as_str(), "is now a VIP"))
        },
        ModAction::Unvip { user_id, user_login } => {
            let card = streamcard_link(channel, user_login.as_str());
            Some(user_notice("🔨", moderator, "unvip", card.as_str(), "", user_id.as_str(), "is no longer a VIP"))
        },
        ModAction::Mod { user_id, user_login } => {
            let card = streamcard_link(channel, user_login.as_str());
            Some(user_notice("🔨", moderator, "mod", card.as_str(), "", user_id.as_str(), "is now a moderator"))
        },
        ModAction::Unmod { user_id, user_login } => {
            let card = streamcard_link(channel, user_login.as_str());
            Some(user_notice("🔨", moderator, "unmod", card.as_str(), "", user_id.as_str(), "is no longer a moderator"))
        },
        ModAction::Raid { user_id, user_login, viewer_count } => {
            let card = streamcard_link(channel, user_login.as_str());
            let args = cat(" ", decimal(*viewer_count).as_str());
            Some(user_notice("🔨", moderator, "raid", card.as_str(), args.as_str(), user_id.as_str(), "is now being raided"))
        },
        ModAction::Unraid { user_id, user_login } => {
            let card = streamcard_link(channel, user_login.as_str());
            Some(user_notice("🔨", moderator, "unraid", card.as_str(), "", user_id.as_str(), "raid was canceled"))
        },
        ModAction::ApproveUnbanRequest { user_id, user_login, moderator_message } => {
            let card = streamcard_link(channel, user_login.as_str());
            let args = cat(" : ", escape(moderator_message.as_str()).as_str());
            Some(user_notice("🔨", moderator, "approve", card.as_str(), args.as_str(), user_id.as_str(), "unban was approved"))
        },
        ModAction::DenyUnbanRequest { user_id, user_login, moderator_message } => {
            let card = streamcard_link(channel, user_login.as_str());
            let args = cat(" : ", escape(moderator_message.as_str()).as_str());
            Some(user_notice("🔨", moderator, "deny", card.as_str(), args.as_str(), user_id.as_str(), "unban was denied"))
        },
        ModAction::EmoteOnly => Some(cat(head("🔒", moderator).as_str(), "emoteonly\nEmote-only mode is now enabled")),
        ModAction::EmoteOnlyOff => Some(cat(head("🔒", moderator).as_str(), "emoteonlyoff\nEmote-only mode is now disabled")),
        ModAction::FollowersOff => Some(cat(head("🔒", moderator).as_str(), "followersoff\nFollowers-only mode is now disabled")),
        ModAction::Uniquechat => Some(cat(head("🔒", moderator).as_str(), "uniquechat\nUnique chat is now enabled")),
        ModAction::UniquechatOff => Some(cat(head("🔒", moderator).as_str(), "uniquechatoff\nUnique chat is now disabled")),
        ModAction::SlowOff => Some(cat(head("🔒", moderator).as_str(), "slowoff\nSlow mode is now disabled")),
        ModAction::Subscribers => Some(cat(head("🔒", moderator).as_str(), "subscribers\nSubscribers-only mode is now enabled")),
        ModAction::SubscribersOff => Some(cat(head("🔒", moderator).as_str(), "subscribersoff\nSubscribers-only mode is now disabled")),
        ModAction::Terms { kind, from_automod, terms } => {
            let name = term_name(kind, *from_automod);
            let list = join(terms);
            let mut r = head("🔨", moderator);
            r.append(name.as_str());
            r.append(" ");
            r.append(list.as_str());
            r.append("\nTerms ");
            r.append(name.as_str());
            r.append("ed");
            r.append(if *from_automod { " temporarily" } else { "" });
            r.append(": ");
            r.append(list.as_str());
            Some(r)
        },
        ModAction::Warn { user_id, user_login, reason, chat_rules_cited } => {
            let card = streamcard_link(channel, user_login.as_str());
            let mut d = String::from_str("has been warned");
            match chat_rules_cited {
                Some(rules) => {
                    d.append(" for breaking rules: ");
                    d.append(join(rules).as_str());
                },
                None => {},
            }
            d.append(reason_line(reason).as_str());
            Some(user_notice("🔨", moderator, "warn", card.as_str(), "", user_id.as_str(), d.as_str()))
        },
        ModAction::SharedChat | ModAction::Unknown => None,
    }
}

} // verus!
