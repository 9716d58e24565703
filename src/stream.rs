//! The stream loop as a state machine: one transition function from the
//! current state and what the connection delivered to the next state and the
//! action that the caller performs.
use vstd::prelude::*;
use crate::frame::{frame_of, is_notification_spec, websocket_frame, Events, Frame, ParsedFrame};
use crate::session::{
    keepalive_after, session_error, url_after, ConnectionTarget, SessionError,
};

verus! {

/// Where the stream loop stands.
#[derive(Debug, Clone, Copy, PartialEq, Eq, Structural)]
pub enum Phase {
    /// The first connection is being opened.
    Connecting,
    /// A connection is open; no session has been negotiated on it yet.
    AwaitingWelcome,
    /// A session is live and its events are published.
    Streaming,
    /// The connection was given up and a new one is being opened.
    Reconnecting,
    /// The loop has ended with an error; nothing moves it any more.
    Failed,
}

/// Why the stream loop ended.
#[derive(Debug, Clone, Copy, PartialEq, Eq, Structural)]
pub enum Fault {
    /// A connection could not be opened.
    ConnectFailed,
    /// The server sent a close frame.
    Closed,
    /// The server revoked a subscription.
    Revoked,
    /// Reading the connection failed in a way that a reconnect does not mend.
    Transport,
    /// A frame arrived that is neither a readable control frame nor a
    /// notification.
    Malformed,
    /// A welcome or reconnect control frame was refused.
    Session(SessionError),
}

/// What the connection delivered, with the time (in seconds) it came at.
#[derive(Debug)]
pub enum Input {
    /// A new connection is open.
    Connected(u64),
    /// A new connection could not be opened.
    ConnectFailed,
    /// A text frame arrived and decoded.
    Frame(u64, Frame),
    /// A frame arrived that did not decode and is not a notification.
    Undecodable,
    /// The server sent a close frame.
    Close,
    /// The read deadline ended with nothing received.
    Silence(u64),
    /// The transport was reset without a closing handshake.
    Reset,
    /// Reading failed in any other way.
    TransportError,
    /// The connection's stream of frames ended.
    Ended,
    /// Asserting the session's subscriptions failed.
    SubscriptionFailed,
}

/// What the caller does next.
#[derive(Debug)]
pub enum Action {
    Nothing,
    /// Assert the subscriptions of the session with this identifier.
    EnsureSubscriptions(String),
    /// Publish this event to the fan-out channel.
    Publish(Events),
    /// Drop the connection, check the credential, and connect to this URL.
    Reconnect(String),
    /// The loop has ended with this fault.
    Stop(Fault),
}

/// An action as contracts see it.
pub enum ActionView {
    Nothing,
    EnsureSubscriptions(Seq<char>),
    Publish(Events),
    Reconnect(Seq<char>),
    Stop(Fault),
}

impl View for Action {
    type V = ActionView;

    open spec fn view(&self) -> ActionView {
        match self {
            Action::Nothing => ActionView::Nothing,
            Action::EnsureSubscriptions(id) => ActionView::EnsureSubscriptions(id@),
            Action::Publish(e) => ActionView::Publish(*e),
            Action::Reconnect(url) => ActionView::Reconnect(url@),
            Action::Stop(f) => ActionView::Stop(*f),
        }
    }
}

/// The state of the stream loop.
pub struct StreamLoop {
    pub phase: Phase,
    /// Where the next connection goes, and the keepalive timeout in force.
    pub target: ConnectionTarget,
    /// The identifier of the live session, if there is one.
    pub session_id: Option<String>,
    /// When the last frame arrived, in seconds.
    pub last_frame_at: u64,
    /// Why the loop ended, once it has.
    pub fault: Option<Fault>,
}

/// The state of the stream loop as contracts see it.
pub struct LoopView {
    pub phase: Phase,
    pub url: Seq<char>,
    pub keepalive: u64,
    pub session: Option<Seq<char>>,
    pub last_frame_at: u64,
    pub fault: Option<Fault>,
}

impl View for StreamLoop {
    type V = LoopView;

    open spec fn view(&self) -> LoopView {
        LoopView {
            phase: self.phase,
            url: self.target.url@,
            keepalive: self.target.keepalive_timeout_seconds,
            session: match self.session_id {
                Some(id) => Some(id@),
                None => None,
            },
            last_frame_at: self.last_frame_at,
            fault: self.fault,
        }
    }
}

/// Whether the keepalive deadline has passed at `now`.
pub open spec fn deadline_passed(s: LoopView, now: u64) -> bool {
    now >= s.last_frame_at + s.keepalive
}

/// The loop ends with `f`.
pub open spec fn fail_spec(s: LoopView, f: Fault) -> (LoopView, ActionView) {
    (LoopView { phase: Phase::Failed, session: None, fault: Some(f), ..s }, ActionView::Stop(f))
}

/// The connection is given up; the next one goes to the URL in force.
pub open spec fn reconnect_spec(s: LoopView) -> (LoopView, ActionView) {
    (LoopView { phase: Phase::Reconnecting, session: None, ..s }, ActionView::Reconnect(s.url))
}

/// A decoded frame that arrived at `now` on an open connection.
pub open spec fn frame_spec(s: LoopView, now: u64, f: Frame) -> (LoopView, ActionView) {
    let s1 = LoopView { last_frame_at: now, ..s };
    match f {
        Frame::Session(d, reconnect) => match session_error(d, reconnect) {
            Some(e) => fail_spec(s1, Fault::Session(e)),
            None => {
                let s2 = LoopView {
                    url: url_after(s.url, d, reconnect),
                    keepalive: keepalive_after(s.keepalive, d.keepalive_timeout_seconds),
                    ..s1
                };
                if reconnect && s.phase == Phase::Streaming {
                    reconnect_spec(s2)
                } else {
                    (
                        LoopView { phase: Phase::Streaming, session: Some(d.id@), ..s2 },
                        ActionView::EnsureSubscriptions(d.id@),
                    )
                }
            },
        },
        Frame::Notification(Some(e)) => if s.phase == Phase::Streaming {
            (s1, ActionView::Publish(e))
        } else {
            (s1, ActionView::Nothing)
        },
        Frame::Revocation => if s.phase == Phase::Streaming {
            fail_spec(s1, Fault::Revoked)
        } else {
            (s1, ActionView::Nothing)
        },
        _ => (s1, ActionView::Nothing),
    }
}

/// The transition function of the stream loop.
pub open spec fn step_spec(s: LoopView, i: Input) -> (LoopView, ActionView) {
    match s.phase {
        Phase::Failed => (s, ActionView::Nothing),
        Phase::Connecting | Phase::Reconnecting => match i {
            Input::Connected(now) => (
                LoopView { phase: Phase::AwaitingWelcome, session: None, last_frame_at: now, ..s },
                ActionView::Nothing,
            ),
            Input::ConnectFailed => fail_spec(s, Fault::ConnectFailed),
            _ => (s, ActionView::Nothing),
        },
        Phase::AwaitingWelcome | Phase::Streaming => match i {
            Input::Frame(now, f) => frame_spec(s, now, f),
            Input::Undecodable => fail_spec(s, Fault::Malformed),
            Input::Close => fail_spec(s, Fault::Closed),
            Input::Silence(now) => if deadline_passed(s, now) {
                reconnect_spec(s)
            } else {
                (s, ActionView::Nothing)
            },
            Input::Reset | Input::Ended => reconnect_spec(s),
            Input::TransportError => fail_spec(s, Fault::Transport),
            Input::SubscriptionFailed => if s.phase == Phase::Streaming {
                reconnect_spec(s)
            } else {
                (s, ActionView::Nothing)
            },
            Input::Connected(_) | Input::ConnectFailed => (s, ActionView::Nothing),
        },
    }
}

impl StreamLoop {
    /// A loop about to open its first connection to `target`.
    pub fn new(target: ConnectionTarget) -> (r: StreamLoop)
        ensures
            r@ == (LoopView {
                phase: Phase::Connecting,
                url: target.url@,
                keepalive: target.keepalive_timeout_seconds,
                session: None,
                last_frame_at: 0,
                fault: None,
            }),
    {
        StreamLoop { phase: Phase::Connecting, target, session_id: None, last_frame_at: 0, fault: None }
    }

    fn fail(&mut self, f: Fault) -> (r: Action)
        ensures
            (final(self)@, r@) == fail_spec(old(self)@, f),
    {
        self.phase = Phase::Failed;
        self.session_id = None;
        self.fault = Some(f);
        Action::Stop(f)
    }

    fn reconnect(&mut self) -> (r: Action)
        ensures
            (final(self)@, r@) == reconnect_spec(old(self)@),
    {
        self.phase = Phase::Reconnecting;
        self.session_id = None;
        Action::Reconnect(self.target.url.clone())
    }

    fn deadline_passed(&self, now: u64) -> (r: bool)
        ensures
            r == deadline_passed(self@, now),
    {
        now >= self.last_frame_at && now - self.last_frame_at >= self.target.keepalive_timeout_seconds
    }

    fn on_frame(&mut self, now: u64, frame: Frame) -> (r: Action)
        requires
            old(self).phase == Phase::AwaitingWelcome || old(self).phase == Phase::Streaming,
        ensures
            (final(self)@, r@) == frame_spec(old(self)@, now, frame),
    {
        let streaming = self.phase == Phase::Streaming;
        self.last_frame_at = now;
        match frame {
            Frame::Session(d, reconnect) => match self.target.negotiate(&d, reconnect) {
                Err(e) => self.fail(Fault::Session(e)),
                Ok((session, target)) => {
                    self.target = target;
                    if reconnect && streaming {
                        self.reconnect()
                    } else {
                        self.phase = Phase::Streaming;
                        let id = session.id.clone();
                        self.session_id = Some(session.id);
                        Action::EnsureSubscriptions(id)
                    }
                },
            },
            Frame::Notification(Some(e)) => if streaming {
                Action::Publish(e)
            } else {
                Action::Nothing
            },
            Frame::Revocation => if streaming {
                self.fail(Fault::Revoked)
            } else {
                Action::Nothing
            },
            _ => Action::Nothing,
        }
    }

    /// Moves the loop by what the connection delivered, and says what the
    /// caller does next.
    pub fn step(&mut self, input: Input) -> (r: Action)
        ensures
            (final(self)@, r@) == step_spec(old(self)@, input),
    {
        match self.phase {
            Phase::Failed => Action::Nothing,
            Phase::Connecting | Phase::Reconnecting => match input {
                Input::Connected(now) => {
                    self.phase = Phase::AwaitingWelcome;
                    self.session_id = None;
                    self.last_frame_at = now;
                    Action::Nothing
                },
                Input::ConnectFailed => self.fail(Fault::ConnectFailed),
                _ => Action::Nothing,
            },
            Phase::AwaitingWelcome | Phase::Streaming => match input {
                Input::Frame(now, frame) => self.on_frame(now, frame),
                Input::Undecodable => self.fail(Fault::Malformed),
                Input::Close => self.fail(Fault::Closed),
                Input::Silence(now) => if self.deadline_passed(now) {
                    self.reconnect()
                } else {
                    Action::Nothing
                },
                Input::Reset | Input::Ended => self.reconnect(),
                Input::TransportError => self.fail(Fault::Transport),
                Input::SubscriptionFailed => if self.phase == Phase::Streaming {
                    self.reconnect()
                } else {
                    Action::Nothing
                },
                Input::Connected(_) | Input::ConnectFailed => Action::Nothing,
            },
        }
    }
}

/// The state after the loop has taken `ins`, in order.
pub open spec fn run(s: LoopView, ins: Seq<Input>) -> LoopView
    decreases ins.len(),
{
    if ins.len() == 0 {
        s
    } else {
        step_spec(run(s, ins.drop_last()), ins.last()).0
    }
}

/// How many reconnect actions the loop asks for while it takes `ins`.
pub open spec fn reconnects(s: LoopView, ins: Seq<Input>) -> nat
    decreases ins.len(),
{
    if ins.len() == 0 {
        0
    } else {
        reconnects(s, ins.drop_last()) + if step_spec(run(s, ins.drop_last()), ins.last()).1 is Reconnect {
            1nat
        } else {
            0nat
        }
    }
}

/// The actions the loop asks for while it takes `ins`, in order.
pub open spec fn actions(s: LoopView, ins: Seq<Input>) -> Seq<ActionView>
    decreases ins.len(),
{
    if ins.len() == 0 {
        Seq::empty()
    } else {
        actions(s, ins.drop_last()).push(step_spec(run(s, ins.drop_last()), ins.last()).1)
    }
}

/// Notification frames that carry the events `events`, arriving at `times`.
pub open spec fn notifications(times: Seq<u64>, events: Seq<Events>) -> Seq<Input> {
    Seq::new(events.len(), |i: int| Input::Frame(times[i], Frame::Notification(Some(events[i]))))
}

/// When the last keepalive frame of `ins` arrived, or `start` if none did.
pub open spec fn last_keepalive(start: u64, ins: Seq<Input>) -> u64
    decreases ins.len(),
{
    if ins.len() == 0 {
        start
    } else {
        match ins.last() {
            Input::Frame(t, Frame::Keepalive) => t,
            _ => last_keepalive(start, ins.drop_last()),
        }
    }
}

/// `ins` holds keepalive frames, and read deadlines that ended before the
/// keepalive timeout `k` had passed since the last keepalive (or since `start`).
pub open spec fn keepalives_on_time(start: u64, k: u64, ins: Seq<Input>) -> bool
    decreases ins.len(),
{
    ins.len() == 0 || {
        &&& keepalives_on_time(start, k, ins.drop_last())
        &&& match ins.last() {
            Input::Frame(_, Frame::Keepalive) => true,
            Input::Silence(t) => t < last_keepalive(start, ins.drop_last()) + k,
            _ => false,
        }
    }
}

/// While streaming, the events of notification frames are published in the
/// order the frames arrived, each once, and the loop stays in `Streaming`.
pub proof fn lemma_publishes_in_order(s: LoopView, times: Seq<u64>, events: Seq<Events>)
    requires
        s.phase == Phase::Streaming,
        times.len() == events.len(),
    ensures
        actions(s, notifications(times, events)) == Seq::new(
            events.len(),
            |i: int| ActionView::Publish(events[i]),
        ),
        run(s, notifications(times, events)).phase == Phase::Streaming,
    decreases events.len(),
{
    let ins = notifications(times, events);
    if events.len() > 0 {
        lemma_publishes_in_order(s, times.drop_last(), events.drop_last());
        assert(ins.drop_last() =~= notifications(times.drop_last(), events.drop_last()));
        assert(actions(s, ins) =~= Seq::new(events.len(), |i: int| ActionView::Publish(events[i])));
    } else {
        assert(actions(s, ins) =~= Seq::new(events.len(), |i: int| ActionView::Publish(events[i])));
    }
}

/// Read deadlines that ended at `times`.
pub open spec fn silences(times: Seq<u64>) -> Seq<Input> {
    Seq::new(times.len(), |i: int| Input::Silence(times[i]))
}

/// While keepalive frames arrive within the keepalive timeout, the loop
/// stays in `Streaming` at every point and never asks to reconnect.
pub proof fn lemma_keepalives_keep_streaming(s: LoopView, ins: Seq<Input>)
    requires
        s.phase == Phase::Streaming,
        keepalives_on_time(s.last_frame_at, s.keepalive, ins),
    ensures
        run(s, ins) == (LoopView { last_frame_at: last_keepalive(s.last_frame_at, ins), ..s }),
        forall|n: int| 0 <= n <= ins.len() ==> (#[trigger] run(s, ins.take(n))).phase == Phase::Streaming,
        reconnects(s, ins) == 0,
    decreases ins.len(),
{
    if ins.len() == 0 {
        assert forall|n: int| 0 <= n <= ins.len() implies (#[trigger] run(s, ins.take(n))).phase
            == Phase::Streaming by {
            assert(ins.take(n).len() == 0);
        }
    } else {
        let prev = ins.drop_last();
        lemma_keepalives_keep_streaming(s, prev);
        assert forall|n: int| 0 <= n <= ins.len() implies (#[trigger] run(s, ins.take(n))).phase
            == Phase::Streaming by {
            if n < ins.len() {
                assert(ins.take(n) =~= prev.take(n));
            } else {
                assert(ins.take(n) =~= ins);
            }
        }
    }
}

/// Once the keepalive deadline has passed, the loop asks to reconnect
/// exactly once, however many more read deadlines end before the new
/// connection opens.
pub proof fn lemma_silence_reconnects_once(s: LoopView, times: Seq<u64>)
    requires
        s.phase == Phase::Streaming || s.phase == Phase::AwaitingWelcome,
        times.len() > 0,
        deadline_passed(s, times[0]),
    ensures
        run(s, silences(times)) == (LoopView { phase: Phase::Reconnecting, session: None, ..s }),
        reconnects(s, silences(times)) == 1,
    decreases times.len(),
{
    let ins = silences(times);
    if times.len() == 1 {
        assert(ins.drop_last().len() == 0);
        assert(reconnects(s, ins.drop_last()) == 0);
        assert(run(s, ins.drop_last()) == s);
        assert(ins.last() == Input::Silence(times[0]));
    } else {
        lemma_silence_reconnects_once(s, times.drop_last());
        assert(ins.drop_last() =~= silences(times.drop_last()));
    }
}

/// A transport reset mid-stream leads to a reconnect to the URL in force;
/// once the new connection is open, a valid welcome frame brings the loop
/// back to `Streaming` on the new session, whose subscriptions it asserts.
pub proof fn lemma_reset_resumes(s: LoopView, opened: u64, welcomed: u64, d: crate::session::SessionFields)
    requires
        s.phase == Phase::Streaming,
        session_error(d, false) is None,
    ensures
        ({
            let (s1, a1) = step_spec(s, Input::Reset);
            let (s2, a2) = step_spec(s1, Input::Connected(opened));
            let (s3, a3) = step_spec(s2, Input::Frame(welcomed, Frame::Session(d, false)));
            &&& a1 == ActionView::Reconnect(s.url)
            &&& s1.phase == Phase::Reconnecting
            &&& a2 == ActionView::Nothing
            &&& s2.phase == Phase::AwaitingWelcome
            &&& s2.session is None
            &&& s3.phase == Phase::Streaming
            &&& s3.session == Some(d.id@)
            &&& s3.fault == s.fault
            &&& a3 == ActionView::EnsureSubscriptions(d.id@)
        }),
{
}

/// A text frame that the parser reads as a welcome frame the session
/// negotiation accepts decodes to that welcome, and on an open connection
/// gives a session whose identifier is the frame's (never empty), and asks
/// for the subscriptions of exactly that session.
pub proof fn lemma_welcome_frame_gives_its_session(
    s: LoopView,
    now: u64,
    text: Seq<char>,
    d: crate::session::SessionFields,
)
    requires
        s.phase == Phase::AwaitingWelcome || s.phase == Phase::Streaming,
        websocket_frame(text) == Ok::<ParsedFrame, crate::frame::ParseFault>(ParsedFrame::Session(d, false)),
        session_error(d, false) is None,
    ensures
        frame_of(websocket_frame(text), is_notification_spec(text)) == Ok::<Frame, crate::frame::DecodeError>(
            Frame::Session(d, false),
        ),
        ({
            let (s1, a) = step_spec(s, Input::Frame(now, Frame::Session(d, false)));
            &&& s1.phase == Phase::Streaming
            &&& s1.session == Some(d.id@)
            &&& d.id@.len() > 0
            &&& a == ActionView::EnsureSubscriptions(d.id@)
        }),
{
}

/// A failed assertion of subscriptions while streaming leads to a reconnect,
/// after which the subscriptions are asserted again; it does not end the loop.
pub proof fn lemma_failed_assertion_reconnects(s: LoopView)
    requires
        s.phase == Phase::Streaming,
    ensures
        step_spec(s, Input::SubscriptionFailed) == reconnect_spec(s),
{
}

/// Taking `a` and then `b` is taking `a + b`.
pub proof fn lemma_run_append(s: LoopView, a: Seq<Input>, b: Seq<Input>)
    ensures
        run(s, a + b) == run(run(s, a), b),
        actions(s, a + b) == actions(s, a) + actions(run(s, a), b),
        reconnects(s, a + b) == reconnects(s, a) + reconnects(run(s, a), b),
    decreases b.len(),
{
    if b.len() == 0 {
        assert(a + b =~= a);
        assert(actions(s, a) + actions(run(s, a), b) =~= actions(s, a));
    } else {
        lemma_run_append(s, a, b.drop_last());
        assert((a + b).drop_last() =~= a + b.drop_last());
        assert((a + b).last() == b.last());
        assert(actions(s, a + b) =~= actions(s, a) + actions(run(s, a), b));
    }
}

/// One read deadline that ended at `.0`, then a new connection opened at `.1`,
/// for each pair of `times`.
pub open spec fn deadline_cycles(times: Seq<(u64, u64)>) -> Seq<Input>
    decreases times.len(),
{
    if times.len() == 0 {
        Seq::empty()
    } else {
        deadline_cycles(times.drop_last()) + seq![Input::Silence(times.last().0), Input::Connected(times.last().1)]
    }
}

/// Each deadline of `times` ended at least `k` seconds after the frame or
/// the connection before it (the first after `start`).
pub open spec fn deadlines_elapsed(start: u64, k: u64, times: Seq<(u64, u64)>) -> bool {
    forall|i: int| 0 <= i < times.len() ==> (#[trigger] times[i]).0 >= (if i == 0 {
        start
    } else {
        times[i - 1].1
    }) + k
}

/// When `n` keepalive deadlines elapse with no frame, each followed by a new
/// connection, the loop asks to reconnect exactly `n` times: once per
/// elapsed deadline.
#[verifier::rlimit(50)]
pub proof fn lemma_each_deadline_reconnects_once(s: LoopView, times: Seq<(u64, u64)>)
    requires
        s.phase == Phase::Streaming || s.phase == Phase::AwaitingWelcome,
        deadlines_elapsed(s.last_frame_at, s.keepalive, times),
    ensures
        reconnects(s, deadline_cycles(times)) == times.len(),
        times.len() > 0 ==> run(s, deadline_cycles(times)) == (LoopView {
            phase: Phase::AwaitingWelcome,
            session: None,
            last_frame_at: times.last().1,
            ..s
        }),
    decreases times.len(),
{
    if times.len() > 0 {
        let prev = times.drop_last();
        assert(deadlines_elapsed(s.last_frame_at, s.keepalive, prev)) by {
            assert forall|i: int| 0 <= i < prev.len() implies (#[trigger] prev[i]).0 >= (if i == 0 {
                s.last_frame_at
            } else {
                prev[i - 1].1
            }) + s.keepalive by {
                assert(prev[i] == times[i]);
                if i > 0 {
                    assert(prev[i - 1] == times[i - 1]);
                }
            }
        }
        lemma_each_deadline_reconnects_once(s, prev);
        let mid = run(s, deadline_cycles(prev));
        let last = times[times.len() - 1];
        assert(last == times.last());
        if prev.len() == 0 {
            assert(deadline_cycles(prev) =~= Seq::<Input>::empty());
            assert(mid == s);
            assert(reconnects(s, deadline_cycles(prev)) == 0);
        } else {
            assert(prev.last() == times[times.len() - 2]);
        }
        assert(deadline_passed(mid, last.0));
        lemma_one_cycle(mid, last.0, last.1);
        lemma_run_append(s, deadline_cycles(prev), seq![Input::Silence(last.0), Input::Connected(last.1)]);
    }
}

/// One elapsed deadline, then a new connection.
proof fn lemma_one_cycle(m: LoopView, t0: u64, t1: u64)
    requires
        m.phase == Phase::Streaming || m.phase == Phase::AwaitingWelcome,
        deadline_passed(m, t0),
    ensures
        run(m, seq![Input::Silence(t0), Input::Connected(t1)]) == (LoopView {
            phase: Phase::AwaitingWelcome,
            session: None,
            last_frame_at: t1,
            ..m
        }),
        reconnects(m, seq![Input::Silence(t0), Input::Connected(t1)]) == 1,
{
    let tail = seq![Input::Silence(t0), Input::Connected(t1)];
    let one = seq![Input::Silence(t0)];
    assert(tail.drop_last() =~= one);
    assert(one.drop_last() =~= Seq::<Input>::empty());
    assert(run(m, one.drop_last()) == m);
    assert(reconnects(m, one.drop_last()) == 0);
    assert(one.last() == Input::Silence(t0));
    assert(tail.last() == Input::Connected(t1));
    let r = reconnect_spec(m);
    assert(step_spec(m, Input::Silence(t0)) == r);
    assert(run(m, one) == r.0);
    assert(reconnects(m, one) == 1);
    assert(run(m, tail) == step_spec(r.0, Input::Connected(t1)).0);
    assert(reconnects(m, tail) == 1);
}

/// A reset mid-stream, a new connection, and a welcome frame with a new
/// session: the loop reconnects once, asserts the new session's
/// subscriptions, and then publishes the events of the notifications that
/// follow, in order, without ending.
pub proof fn lemma_reset_then_publishes(
    s: LoopView,
    opened: u64,
    welcomed: u64,
    d: crate::session::SessionFields,
    times: Seq<u64>,
    events: Seq<Events>,
)
    requires
        s.phase == Phase::Streaming,
        session_error(d, false) is None,
        times.len() == events.len(),
    ensures
        ({
            let head = seq![Input::Reset, Input::Connected(opened), Input::Frame(welcomed, Frame::Session(d, false))];
            let ins = head + notifications(times, events);
            &&& actions(s, ins) == seq![
                ActionView::Reconnect(s.url),
                ActionView::Nothing,
                ActionView::EnsureSubscriptions(d.id@),
            ] + Seq::new(events.len(), |i: int| ActionView::Publish(events[i]))
            &&& run(s, ins).phase == Phase::Streaming
            &&& run(s, ins).session == Some(d.id@)
        }),
{
    let head = seq![Input::Reset, Input::Connected(opened), Input::Frame(welcomed, Frame::Session(d, false))];
    let mid = run(s, head);
    let h2 = seq![Input::Reset, Input::Connected(opened)];
    let h1 = seq![Input::Reset];
    lemma_reset_resumes(s, opened, welcomed, d);
    assert(head.drop_last() =~= h2);
    assert(h2.drop_last() =~= h1);
    assert(h1.drop_last() =~= Seq::<Input>::empty());
    assert(head.last() == Input::Frame(welcomed, Frame::Session(d, false)));
    assert(h2.last() == Input::Connected(opened));
    assert(h1.last() == Input::Reset);
    assert(run(s, h1.drop_last()) == s);
    assert(actions(s, h1.drop_last()) =~= Seq::<ActionView>::empty());
    let (s1, a1) = step_spec(s, Input::Reset);
    let (s2, a2) = step_spec(s1, Input::Connected(opened));
    assert(run(s, h1) == s1);
    assert(actions(s, h1) =~= seq![a1]);
    assert(run(s, h2) == s2);
    assert(actions(s, h2) =~= seq![a1, a2]);
    assert(actions(s, head) =~= seq![
        ActionView::Reconnect(s.url),
        ActionView::Nothing,
        ActionView::EnsureSubscriptions(d.id@),
    ]);
    lemma_publishes_in_order(mid, times, events);
    lemma_run_append(s, head, notifications(times, events));
    lemma_session_kept(mid, times, events);
}

/// Publishing notifications keeps the session.
proof fn lemma_session_kept(s: LoopView, times: Seq<u64>, events: Seq<Events>)
    requires
        s.phase == Phase::Streaming,
        times.len() == events.len(),
    ensures
        run(s, notifications(times, events)).session == s.session,
    decreases events.len(),
{
    if events.len() > 0 {
        lemma_session_kept(s, times.drop_last(), events.drop_last());
        lemma_publishes_in_order(s, times.drop_last(), events.drop_last());
        assert(notifications(times, events).drop_last() =~= notifications(times.drop_last(), events.drop_last()));
    }
}

} // verus!
