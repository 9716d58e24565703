//! Session negotiation: what a welcome or reconnect control frame does to the
//! session and to where the next connection goes.
use vstd::prelude::*;
use vstd::string::*;

verus! {

/// The session fields of a welcome or reconnect control frame.
#[derive(Debug, Clone)]
pub struct SessionFields {
    /// The identifier that the server gave this connection.
    pub id: String,
    /// The keepalive timeout that the server asks for, if it names one.
    pub keepalive_timeout_seconds: Option<i64>,
    /// Where to connect next time, if the server names a place.
    pub reconnect_url: Option<String>,
}

/// The identity of one live connection.
#[derive(Debug, Clone)]
pub struct Session {
    /// The identifier that subscriptions are bound to.
    pub id: String,
    /// Seconds of silence after which the connection counts as dead.
    pub keepalive_timeout_seconds: u64,
}

/// Where the next connection goes, and how long it may stay silent.
#[derive(Debug, Clone)]
pub struct ConnectionTarget {
    pub url: String,
    pub keepalive_timeout_seconds: u64,
}

/// Why a welcome or reconnect control frame was refused.
#[derive(Debug, Clone, Copy, PartialEq, Eq, Structural)]
pub enum SessionError {
    /// The frame names no session identifier.
    EmptySessionId,
    /// The frame asks for a keepalive timeout that is not positive.
    BadKeepalive,
    /// The frame names a reconnect URL that does not parse.
    BadReconnectUrl,
}

/// The serialization of the URL that `s` parses to, or `None` where it does
/// not parse.
pub uninterp spec fn parsed_url(s: Seq<char>) -> Option<Seq<char>>;

/// Relies on `url::Url::parse`, and on the URL's serialization through
/// `From<Url> for String`: both depend on the text alone.
#[verifier::external_body]
fn parse_url(s: &str) -> (r: Option<String>)
    ensures
        match r {
            Some(u) => parsed_url(s@) == Some(u@),
            None => parsed_url(s@) is None,
        },
{
    match url::Url::parse(s) {
        Ok(u) => Some(u.into()),
        Err(_) => None,
    }
}

/// The keepalive timeout after a frame that asks for `asked`.
pub open spec fn keepalive_after(current: u64, asked: Option<i64>) -> u64 {
    match asked {
        Some(k) => k as u64,
        None => current,
    }
}

/// The URL after a frame: only a reconnect frame moves it.
pub open spec fn url_after(current: Seq<char>, data: SessionFields, reconnect: bool) -> Seq<char> {
    if reconnect && data.reconnect_url is Some {
        parsed_url(data.reconnect_url->Some_0@)->Some_0
    } else {
        current
    }
}

/// When a welcome (`reconnect` false) or reconnect frame is refused, and why.
pub open spec fn session_error(data: SessionFields, reconnect: bool) -> Option<SessionError> {
    if data.id@.len() == 0 {
        Some(SessionError::EmptySessionId)
    } else if data.keepalive_timeout_seconds matches Some(k) && k <= 0 {
        Some(SessionError::BadKeepalive)
    } else if reconnect && data.reconnect_url is Some && parsed_url(
        data.reconnect_url->Some_0@,
    ) is None {
        Some(SessionError::BadReconnectUrl)
    } else {
        None
    }
}

impl ConnectionTarget {
    /// The target of a first connection.
    pub fn new(url: String, keepalive_timeout_seconds: u64) -> (r: ConnectionTarget)
        ensures
            r.url@ == url@,
            r.keepalive_timeout_seconds == keepalive_timeout_seconds,
    {
        ConnectionTarget { url, keepalive_timeout_seconds }
    }

    /// Takes the session of a welcome (`reconnect` false) or reconnect frame:
    /// the session gets the frame's identifier and the keepalive timeout in
    /// force, and the returned target is the one for later connections.
    pub fn negotiate(&self, data: &SessionFields, reconnect: bool) -> (r: Result<
        (Session, ConnectionTarget),
        SessionError,
    >)
        ensures
            r is Err <==> session_error(*data, reconnect) is Some,
            r matches Err(e) ==> session_error(*data, reconnect) == Some(e),
            r matches Ok((s, t)) ==> {
                &&& s.id@ == data.id@
                &&& s.id@.len() > 0
                &&& s.keepalive_timeout_seconds == keepalive_after(
                    self.keepalive_timeout_seconds,
                    data.keepalive_timeout_seconds,
                )
                &&& t.keepalive_timeout_seconds == s.keepalive_timeout_seconds
                &&& t.url@ == url_after(self.url@, *data, reconnect)
            },
    {
        if data.id.unicode_len() == 0 {
            return Err(SessionError::EmptySessionId);
        }
        let keepalive = match data.keepalive_timeout_seconds {
            Some(k) => {
                if k <= 0 {
                    return Err(SessionError::BadKeepalive);
                }
                k as u64
            },
            None => self.keepalive_timeout_seconds,
        };
        let url = match (&data.reconnect_url, reconnect) {
            (Some(u), true) => match parse_url(u.as_str()) {
                Some(p) => p,
                None => {
                    return Err(SessionError::BadReconnectUrl);
                },
            },
            _ => self.url.clone(),
        };
        let session = Session { id: data.id.clone(), keepalive_timeout_seconds: keepalive };
        Ok((session, ConnectionTarget { url, keepalive_timeout_seconds: keepalive }))
    }
}

} // verus!
