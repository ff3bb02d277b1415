//! Session identities: the proof of a login that the caller keeps between
//! requests.

use vstd::prelude::*;

verus! {

/// An opaque token that stands for one username. The library mints it at
/// login; the caller stores it (in a signed cookie, say) and hands it back
/// with later requests. It neither expires nor can it be revoked.
#[derive(Debug, PartialEq, Eq)]
pub struct SessionIdentity {
    token: String,
}

impl View for SessionIdentity {
    type V = Seq<char>;

    /// The username that the identity is bound to.
    closed spec fn view(&self) -> Seq<char> {
        self.token@
    }
}

impl SessionIdentity {
    /// The token that stands for `username`. Distinct usernames have distinct
    /// tokens, and a token names its username: see `law_token_names_username`.
    pub closed spec fn token_for(username: Seq<char>) -> Seq<char> {
        username
    }

    /// The username that a token stands for.
    pub closed spec fn username_of(token: Seq<char>) -> Seq<char> {
        token
    }

    /// The identity of the user who just logged in as `username`.
    pub(crate) fn mint(username: &str) -> (identity: SessionIdentity)
        ensures
            identity@ == username@,
    {
        SessionIdentity { token: username.to_owned() }
    }

    /// The identity that a token handed back by the caller stands for.
    pub fn from_token(token: String) -> (identity: SessionIdentity)
        ensures
            identity@ == Self::username_of(token@),
    {
        SessionIdentity { token }
    }

    /// The token for the caller to keep.
    pub fn token(&self) -> (token: &str)
        ensures
            token@ == Self::token_for(self@),
    {
        self.token.as_str()
    }

    /// The username that the identity is bound to.
    pub fn username(&self) -> (username: &str)
        ensures
            username@ == self@,
    {
        self.token.as_str()
    }

    /// Tokens and usernames correspond one to one: a token handed out for a
    /// username leads back to that username and to no other.
    pub proof fn law_token_names_username(a: Seq<char>, b: Seq<char>)
        ensures
            Self::username_of(Self::token_for(a)) == a,
            Self::token_for(Self::username_of(a)) == a,
            Self::token_for(a) == Self::token_for(b) <==> a == b,
    {
    }
}

} // verus!
