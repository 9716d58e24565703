//! Access tokens given on the command line, and the `Secret` that holds them.
use vstd::prelude::*;
use vstd::string::*;

verus! {

/// The exact number of bytes of an access token.
pub const TOKEN_LEN: usize = 30;

/// Why a string was refused as an access token.
#[derive(Debug, Clone, Copy, PartialEq, Eq, Structural)]
pub enum TokenError {
    /// The token carries the chat-login prefix `oauth:`.
    OauthPrefix,
    /// The token is not exactly `TOKEN_LEN` bytes long.
    WrongLength,
}

/// The prefix that chat logins put in front of a token.
pub open spec fn oauth_prefix() -> Seq<char> {
    seq!['o', 'a', 'u', 't', 'h', ':']
}

pub open spec fn has_prefix(s: Seq<char>, p: Seq<char>) -> bool {
    p.len() <= s.len() && s.subrange(0, p.len() as int) == p
}

/// A value that must not be shown in logs.
#[derive(Clone)]
pub struct Secret(String);

impl View for Secret {
    type V = Seq<char>;

    closed spec fn view(&self) -> Seq<char> {
        self.0@
    }
}

impl Secret {
    /// Wraps `s` as a secret.
    pub fn new(s: &str) -> (r: Secret)
        ensures
            r@ == s@,
    {
        Secret(s.to_owned())
    }

    /// The secret text itself.
    pub fn secret(&self) -> (r: &str)
        ensures
            r@ == self@,
    {
        self.0.as_str()
    }

    /// What stands for the secret wherever it would be shown.
    pub fn masked(&self) -> (r: &'static str)
        ensures
            r@ == seq!['[', 's', 'e', 'c', 'r', 'e', 't', ']'],
    {
        let r = "[secret]";
        proof {
            reveal_strlit("[secret]");
        }
        r
    }
}

fn starts_with_oauth(s: &str) -> (r: bool)
    ensures
        r == has_prefix(s@, oauth_prefix()),
{
    let p = "oauth:";
    proof {
        reveal_strlit("oauth:");
    }
    let n = s.unicode_len();
    if n < 6 {
        return false;
    }
    let mut i: usize = 0;
    while i < 6
        invariant
            i <= 6 <= n,
            n == s@.len(),
            p@ == oauth_prefix(),
            forall|j: int| 0 <= j < i ==> s@[j] == oauth_prefix()[j],
        decreases 6 - i,
    {
        if s.get_char(i) != p.get_char(i) {
            assert(s@.subrange(0, 6)[i as int] != oauth_prefix()[i as int]);
            return false;
        }
        i = i + 1;
    }
    assert(s@.subrange(0, 6) =~= oauth_prefix());
    true
}

/// Checks that `s` can be an access token: it must not carry the `oauth:`
/// prefix, and it must be exactly `TOKEN_LEN` bytes long.
pub fn is_token(s: &str) -> (r: Result<Secret, TokenError>)
    ensures
        has_prefix(s@, oauth_prefix()) ==> r == Err::<Secret, TokenError>(TokenError::OauthPrefix),
        !has_prefix(s@, oauth_prefix()) && s.len() != TOKEN_LEN
            ==> r == Err::<Secret, TokenError>(TokenError::WrongLength),
        r is Ok <==> !has_prefix(s@, oauth_prefix()) && s.len() == TOKEN_LEN,
        r matches Ok(t) ==> t@ == s@,
{
    if starts_with_oauth(s) {
        return Err(TokenError::OauthPrefix);
    }
    if s.len() != TOKEN_LEN {
        return Err(TokenError::WrongLength);
    }
    Ok(Secret::new(s))
}

} // verus!
