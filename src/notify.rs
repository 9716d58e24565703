//! Pieces of the moderation notices that go to the chat webhook.
use vstd::prelude::*;
use crate::sanitize::{escape, escape_markdown};

verus! {

/// A markdown link to the viewer card of `user_login` in `channel_login`'s
/// chat, with the channel's name escaped.
pub open spec fn streamcard_link_spec(channel_login: Seq<char>, user_login: Seq<char>) -> Seq<char> {
    "["@ + user_login + "](<https://www.twitch.tv/popout/"@ + escape_markdown(channel_login)
        + "/viewercard/"@ + user_login + "?popout=>)"@
}

/// Builds the viewer-card link of `user_login` in `channel_login`'s chat.
pub fn streamcard_link(channel_login: &str, user_login: &str) -> (r: String)
    ensures
        r@ == streamcard_link_spec(channel_login@, user_login@),
{
    let mut r = String::new();
    r.append("[");
    r.append(user_login);
    r.append("](<https://www.twitch.tv/popout/");
    r.append(escape(channel_login).as_str());
    r.append("/viewercard/");
    r.append(user_login);
    r.append("?popout=>)");
    r
}

/// The notice that asks the operator to authorize this client.
pub open spec fn device_notice_spec(url: Seq<char>, code: Seq<char>) -> Seq<char> {
    "Please visit <"@ + url + "> and enter the code: `"@ + code
        + "` to authenticate `twitch_discord_moderation` with twitch!"@
}

/// Builds the notice that asks the operator to enter `code` at `url`.
pub fn device_notice(url: &str, code: &str) -> (r: String)
    ensures
        r@ == device_notice_spec(url@, code@),
{
    let mut r = String::new();
    r.append("Please visit <");
    r.append(url);
    r.append("> and enter the code: `");
    r.append(code);
    r.append("` to authenticate `twitch_discord_moderation` with twitch!");
    r
}

/// The command name of a change to the automod term lists: whether terms
/// were added or removed, by automod (temporarily) or by a moderator, to the
/// blocked or the permitted list.
pub fn term_action_name(add: bool, from_automod: bool, blocked: bool) -> (r: &'static str)
    ensures
        r@ == (if from_automod { "temp_"@ } else { ""@ }) + "term_"@ + (if add { "add_"@ } else { "remove_"@ })
            + (if blocked { "block"@ } else { "permit"@ }),
{
    proof {
        reveal_strlit("temp_");
        reveal_strlit("");
        reveal_strlit("term_");
        reveal_strlit("add_");
        reveal_strlit("remove_");
        reveal_strlit("block");
        reveal_strlit("permit");
        reveal_strlit("temp_term_add_block");
        reveal_strlit("temp_term_add_permit");
        reveal_strlit("term_add_block");
        reveal_strlit("term_add_permit");
        reveal_strlit("temp_term_remove_block");
        reveal_strlit("temp_term_remove_permit");
        reveal_strlit("term_remove_block");
        reveal_strlit("term_remove_permit");
    }
    let r = match (add, from_automod, blocked) {
        (true, true, true) => "temp_term_add_block",
        (true, true, false) => "temp_term_add_permit",
        (true, false, true) => "term_add_block",
        (true, false, false) => "term_add_permit",
        (false, true, true) => "temp_term_remove_block",
        (false, true, false) => "temp_term_remove_permit",
        (false, false, true) => "term_remove_block",
        (false, false, false) => "term_remove_permit",
    };
    assert(r@ =~= (if from_automod { "temp_"@ } else { ""@ }) + "term_"@ + (if add { "add_"@ } else { "remove_"@ })
        + (if blocked { "block"@ } else { "permit"@ }));
    r
}

} // verus!
