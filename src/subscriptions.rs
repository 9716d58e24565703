//! The subscription manager's decisions: whether the credential's scopes
//! allow the targets, and which targets still need a subscription on the
//! current session.
use vstd::prelude::*;
use vstd::string::*;

verus! {

/// An entity to watch, with the topic wanted for it and the scopes that
/// topic needs.
#[derive(Debug, Clone)]
pub struct Target {
    /// The entity's identifier, such as a channel's user id.
    pub broadcaster_id: String,
    /// The topic (event type) wanted for the entity.
    pub topic: String,
    /// The scopes that a credential must hold for the topic.
    pub required_scopes: Vec<String>,
}

/// A subscription that the server already holds.
#[derive(Debug, Clone)]
pub struct Subscription {
    /// Whether the subscription is enabled.
    pub enabled: bool,
    /// The session of the socket transport it is bound to, if it is bound to one.
    pub session_id: Option<String>,
    /// The entity it watches.
    pub broadcaster_id: String,
    /// Its topic.
    pub topic: String,
}

/// Why subscriptions could not be asserted.
#[derive(Debug, Clone, Copy, PartialEq, Eq, Structural)]
pub enum SubscriptionError {
    /// The credential lacks a scope that a target's topic needs.
    InsufficientScope,
}

/// How the channel to watch is found.
#[derive(Debug, Clone, PartialEq, Eq)]
pub enum ChannelLookup {
    /// Look the channel up by its user id.
    ById(String),
    /// Look the channel up by its login.
    ByLogin(String),
    /// Watch the channel of the token's own user.
    TokenOwner,
}

/// Picks how the channel to watch is found: by id when one is given, else
/// by login when one is given, else the token's owner.
pub fn channel_lookup(channel_id: Option<String>, channel_login: Option<String>) -> (r: ChannelLookup)
    ensures
        channel_id is Some ==> (r matches ChannelLookup::ById(x) && x@ == channel_id->Some_0@),
        (channel_id is None && channel_login is Some) ==> (r matches ChannelLookup::ByLogin(x)
            && x@ == channel_login->Some_0@),
        (channel_id is None && channel_login is None) ==> r == ChannelLookup::TokenOwner,
{
    match (channel_id, channel_login) {
        (Some(id), _) => ChannelLookup::ById(id),
        (None, Some(login)) => ChannelLookup::ByLogin(login),
        (None, None) => ChannelLookup::TokenOwner,
    }
}

/// The topic of channel moderation events.
pub open spec fn moderation_topic() -> Seq<char> {
    "channel.moderate"@
}

/// The scopes that channel moderation events need, in order.
pub open spec fn moderation_scope_names() -> Seq<Seq<char>> {
    seq![
        "moderator:read:blocked_terms"@,
        "moderator:read:chat_settings"@,
        "moderator:read:unban_requests"@,
        "moderator:read:banned_users"@,
        "moderator:read:chat_messages"@,
        "moderator:read:moderators"@,
        "moderator:read:vips"@,
        "moderator:read:warnings"@,
    ]
}

/// The scopes that channel moderation events need.
pub fn moderation_scopes() -> (r: Vec<String>)
    ensures
        r@.len() == moderation_scope_names().len(),
        forall|i: int| 0 <= i < r@.len() ==> (#[trigger] r@[i])@ == moderation_scope_names()[i],
{
    let mut r: Vec<String> = Vec::new();
    r.push(String::from_str("moderator:read:blocked_terms"));
    r.push(String::from_str("moderator:read:chat_settings"));
    r.push(String::from_str("moderator:read:unban_requests"));
    r.push(String::from_str("moderator:read:banned_users"));
    r.push(String::from_str("moderator:read:chat_messages"));
    r.push(String::from_str("moderator:read:moderators"));
    r.push(String::from_str("moderator:read:vips"));
    r.push(String::from_str("moderator:read:warnings"));
    r
}

/// The target that watches the moderation events of `broadcaster_id`.
pub fn moderation_target(broadcaster_id: String) -> (r: Target)
    ensures
        r.broadcaster_id@ == broadcaster_id@,
        r.topic@ == moderation_topic(),
        r.required_scopes@.len() == moderation_scope_names().len(),
        forall|i: int| 0 <= i < r.required_scopes@.len() ==> (#[trigger] r.required_scopes@[i])@
            == moderation_scope_names()[i],
{
    Target {
        broadcaster_id,
        topic: String::from_str("channel.moderate"),
        required_scopes: moderation_scopes(),
    }
}

/// `scope` is among the `granted` scopes.
pub open spec fn holds_scope(granted: Seq<String>, scope: Seq<char>) -> bool {
    exists|g: int| 0 <= g < granted.len() && (#[trigger] granted[g])@ == scope
}

/// Every scope of `required` is among the `granted` scopes.
pub open spec fn has_all_scopes(granted: Seq<String>, required: Seq<String>) -> bool {
    forall|k: int| 0 <= k < required.len() ==> holds_scope(granted, #[trigger] required[k]@)
}

/// Every scope that `t` needs is among the `granted` scopes.
pub open spec fn scopes_granted(granted: Seq<String>, t: Target) -> bool {
    has_all_scopes(granted, t.required_scopes@)
}

/// Every target is allowed by the `granted` scopes.
pub open spec fn all_scopes_granted(granted: Seq<String>, targets: Seq<Target>) -> bool {
    forall|i: int| 0 <= i < targets.len() ==> scopes_granted(granted, #[trigger] targets[i])
}

/// `s` is an enabled subscription for `t` on the session `sid`.
pub open spec fn serves(sid: Seq<char>, t: Target, s: Subscription) -> bool {
    &&& s.enabled
    &&& s.session_id matches Some(id) && id@ == sid
    &&& s.broadcaster_id@ == t.broadcaster_id@
    &&& s.topic@ == t.topic@
}

/// Some existing subscription serves `t` on the session `sid`.
pub open spec fn covered(sid: Seq<char>, t: Target, existing: Seq<Subscription>) -> bool {
    exists|j: int| 0 <= j < existing.len() && serves(sid, t, #[trigger] existing[j])
}

/// The positions, in order, of the targets that no existing subscription
/// serves on the session `sid`.
pub open spec fn uncovered(sid: Seq<char>, targets: Seq<Target>, existing: Seq<Subscription>) -> Seq<
    usize,
>
    decreases targets.len(),
{
    if targets.len() == 0 {
        Seq::empty()
    } else {
        let prev = uncovered(sid, targets.drop_last(), existing);
        if covered(sid, targets.last(), existing) {
            prev
        } else {
            prev.push((targets.len() - 1) as usize)
        }
    }
}

fn holds(granted: &Vec<String>, scope: &String) -> (r: bool)
    ensures
        r == holds_scope(granted@, scope@),
{
    let mut g: usize = 0;
    while g < granted.len()
        invariant
            g <= granted.len(),
            forall|h: int| 0 <= h < g ==> (#[trigger] granted@[h])@ != scope@,
        decreases granted.len() - g,
    {
        if granted[g] == *scope {
            return true;
        }
        g = g + 1;
    }
    false
}

/// Whether `granted` holds every scope of `required`.
pub fn has_all(granted: &Vec<String>, required: &Vec<String>) -> (r: bool)
    ensures
        r == has_all_scopes(granted@, required@),
{
    let mut k: usize = 0;
    while k < required.len()
        invariant
            k <= required.len(),
            forall|m: int| 0 <= m < k ==> holds_scope(granted@, #[trigger] required@[m]@),
        decreases required.len() - k,
    {
        if !holds(granted, &required[k]) {
            return false;
        }
        k = k + 1;
    }
    true
}

fn is_covered(sid: &String, t: &Target, existing: &Vec<Subscription>) -> (r: bool)
    ensures
        r == covered(sid@, *t, existing@),
{
    let mut j: usize = 0;
    while j < existing.len()
        invariant
            j <= existing.len(),
            forall|m: int| 0 <= m < j ==> !serves(sid@, *t, #[trigger] existing@[m]),
        decreases existing.len() - j,
    {
        let s = &existing[j];
        let bound = match &s.session_id {
            Some(id) => *id == *sid,
            None => false,
        };
        if s.enabled && bound && s.broadcaster_id == t.broadcaster_id && s.topic == t.topic {
            return true;
        }
        j = j + 1;
    }
    false
}

/// Decides what asserting the `targets` on the session `session_id` takes:
/// `InsufficientScope` when the `granted` scopes miss one that a target
/// needs, and otherwise the positions of the targets that need a create
/// call, those that an enabled subscription on this session already serves
/// left out.
pub fn plan_subscriptions(
    session_id: &String,
    granted: &Vec<String>,
    targets: &Vec<Target>,
    existing: &Vec<Subscription>,
) -> (r: Result<Vec<usize>, SubscriptionError>)
    ensures
        r is Err <==> !all_scopes_granted(granted@, targets@),
        r matches Err(e) ==> e == SubscriptionError::InsufficientScope,
        r matches Ok(v) ==> v@ == uncovered(session_id@, targets@, existing@),
{
    let mut i: usize = 0;
    while i < targets.len()
        invariant
            i <= targets.len(),
            forall|m: int| 0 <= m < i ==> scopes_granted(granted@, #[trigger] targets@[m]),
        decreases targets.len() - i,
    {
        if !has_all(granted, &targets[i].required_scopes) {
            return Err(SubscriptionError::InsufficientScope);
        }
        i = i + 1;
    }
    let mut out: Vec<usize> = Vec::new();
    let mut i: usize = 0;
    while i < targets.len()
        invariant
            i <= targets.len(),
            out@ == uncovered(session_id@, targets@.take(i as int), existing@),
        decreases targets.len() - i,
    {
        proof {
            assert(targets@.take(i + 1).drop_last() =~= targets@.take(i as int));
        }
        if !is_covered(session_id, &targets[i], existing) {
            out.push(i);
        }
        i = i + 1;
    }
    proof {
        assert(targets@.take(targets.len() as int) =~= targets@);
    }
    Ok(out)
}

/// The positions that `uncovered` gives are those of the targets, and each
/// is of a target that no existing subscription serves.
pub proof fn lemma_uncovered_members(sid: Seq<char>, targets: Seq<Target>, existing: Seq<Subscription>)
    requires
        targets.len() <= usize::MAX,
    ensures
        forall|k: int| 0 <= k < uncovered(sid, targets, existing).len() ==> {
            let i = #[trigger] uncovered(sid, targets, existing)[k];
            &&& i < targets.len()
            &&& !covered(sid, targets[i as int], existing)
        },
        forall|i: int| 0 <= i < targets.len() && !covered(sid, #[trigger] targets[i], existing)
            ==> uncovered(sid, targets, existing).contains(i as usize),
    decreases targets.len(),
{
    if targets.len() > 0 {
        let prev = targets.drop_last();
        lemma_uncovered_members(sid, prev, existing);
        let u = uncovered(sid, targets, existing);
        let pu = uncovered(sid, prev, existing);
        assert forall|k: int| 0 <= k < u.len() implies {
            let i = #[trigger] u[k];
            &&& i < targets.len()
            &&& !covered(sid, targets[i as int], existing)
        } by {
            if k < pu.len() {
                assert(u[k] == pu[k]);
                assert(pu[k] == uncovered(sid, prev, existing)[k]);
                assert(prev[pu[k] as int] == targets[pu[k] as int]);
            }
        }
        assert forall|i: int| 0 <= i < targets.len() && !covered(sid, #[trigger] targets[i], existing)
            implies u.contains(i as usize) by {
            if i < prev.len() {
                assert(prev[i] == targets[i]);
                let k = choose|k: int| 0 <= k < pu.len() && pu[k] == i as usize;
                assert(u[k] == i as usize);
            } else {
                assert(u[u.len() - 1] == i as usize);
            }
        }
    }
}

/// Asserting the subscriptions again on a session where an enabled
/// subscription already serves a target issues no create call for it.
pub proof fn lemma_reassert_skips_served(
    sid: Seq<char>,
    targets: Seq<Target>,
    existing: Seq<Subscription>,
    i: int,
    j: int,
)
    requires
        targets.len() <= usize::MAX,
        0 <= i < targets.len(),
        0 <= j < existing.len(),
        serves(sid, targets[i], existing[j]),
    ensures
        !uncovered(sid, targets, existing).contains(i as usize),
{
    lemma_uncovered_members(sid, targets, existing);
    if uncovered(sid, targets, existing).contains(i as usize) {
        let k = choose|k: int| 0 <= k < uncovered(sid, targets, existing).len() && uncovered(sid, targets, existing)[k] == i as usize;
        assert(uncovered(sid, targets, existing)[k] == i as usize);
        assert(!covered(sid, targets[i], existing));
        assert(covered(sid, targets[i], existing));
    }
}

/// With no existing subscription, asserting the targets issues exactly one
/// create call for each of them, in order.
pub proof fn lemma_fresh_session_creates_each_once(sid: Seq<char>, targets: Seq<Target>)
    requires
        targets.len() <= usize::MAX,
    ensures
        uncovered(sid, targets, Seq::empty()) == Seq::new(targets.len(), |i: int| i as usize),
    decreases targets.len(),
{
    if targets.len() > 0 {
        lemma_fresh_session_creates_each_once(sid, targets.drop_last());
        assert(!covered(sid, targets.last(), Seq::empty()));
        assert(uncovered(sid, targets, Seq::empty()) =~= Seq::new(targets.len(), |i: int| i as usize));
    } else {
        assert(uncovered(sid, targets, Seq::empty()) =~= Seq::new(targets.len(), |i: int| i as usize));
    }
}

/// Asserting the subscriptions again on a session where every target is
/// already served issues no create call at all.
pub proof fn lemma_all_served_plans_nothing(sid: Seq<char>, targets: Seq<Target>, existing: Seq<Subscription>)
    requires
        targets.len() <= usize::MAX,
        forall|i: int| 0 <= i < targets.len() ==> covered(sid, #[trigger] targets[i], existing),
    ensures
        uncovered(sid, targets, existing).len() == 0,
{
    lemma_uncovered_members(sid, targets, existing);
    if uncovered(sid, targets, existing).len() > 0 {
        let i = uncovered(sid, targets, existing)[0];
        assert(!covered(sid, targets[i as int], existing));
    }
}

} // verus!
