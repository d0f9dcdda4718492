//! The process-wide session: the acquired auth token and which of the three
//! collaborator handles are present.  The application holds the real handles
//! behind one exclusive lock; the orchestration core works on a snapshot of
//! the fields it needs.

use vstd::prelude::*;

use crate::error::Error;

verus! {

/// The authenticated user, as the token provider reports it: the user's id
/// and the raw bearer value.
#[derive(Debug)]
pub struct TokenData {
    pub user_id: String,
    pub access_token: String,
}

impl Clone for TokenData {
    fn clone(&self) -> (res: Self)
        ensures
            res == *self,
    {
        TokenData { user_id: self.user_id.clone(), access_token: self.access_token.clone() }
    }
}

/// What a successful token exchange reports upward: the user's id and the
/// raw access token.
#[derive(Debug)]
pub struct TokenInfo {
    user_id: String,
    access_token: String,
}

impl TokenInfo {
    /// The user id the token belongs to.
    pub closed spec fn spec_user_id(&self) -> Seq<char> {
        self.user_id@
    }

    /// The raw bearer value.
    pub closed spec fn spec_access_token(&self) -> Seq<char> {
        self.access_token@
    }

    /// The user id the token belongs to.
    pub fn user_id(&self) -> (r: &String)
        ensures
            r@ == self.spec_user_id(),
    {
        &self.user_id
    }

    /// The raw bearer value.
    pub fn access_token(&self) -> (r: &String)
        ensures
            r@ == self.spec_access_token(),
    {
        &self.access_token
    }
}

/// A consistent snapshot of the shared session, taken under its lock: the
/// current token, and whether each collaborator handle is present.  A join
/// needs the token and the chat transport; the event service and the
/// cosmetics service are optional providers that are skipped when absent.
#[derive(Debug)]
pub struct SessionSnapshot {
    pub token: Option<TokenData>,
    pub has_chat: bool,
    pub has_eventsub: bool,
    pub has_cosmetics: bool,
}

/// Returns the session's auth token, or the precondition error when none is
/// set.
pub fn get_access_token(session: &SessionSnapshot) -> (r: Result<&TokenData, Error>)
    ensures
        match r {
            Ok(t) => session.token == Some(*t),
            Err(e) => session.token is None && e == Error::AccessTokenMissing,
        },
{
    match &session.token {
        Some(t) => Ok(t),
        None => Err(Error::AccessTokenMissing),
    }
}

/// Applies the outcome of a token exchange to the session: the stored token
/// becomes exactly the exchange's result (cleared on failure), and a
/// successful exchange is reported upward as a [`TokenInfo`].
pub fn set_access_token(session: &mut SessionSnapshot, exchanged: Option<TokenData>) -> (r: Option<
    TokenInfo,
>)
    ensures
        final(session).token == exchanged,
        final(session).has_chat == old(session).has_chat,
        final(session).has_eventsub == old(session).has_eventsub,
        final(session).has_cosmetics == old(session).has_cosmetics,
        match r {
            Some(info) => exchanged matches Some(t) && info.spec_user_id() == t.user_id@
                && info.spec_access_token() == t.access_token@,
            None => exchanged is None,
        },
{
    match exchanged {
        Some(t) => {
            let info = TokenInfo {
                user_id: t.user_id.clone(),
                access_token: t.access_token.clone(),
            };
            session.token = Some(t);
            Some(info)
        },
        None => {
            session.token = None;
            None
        },
    }
}

/// Decides the fire-and-forget emote fetch: the user whose emote inventory
/// to request from the chat-platform API, or `None` when no token is present
/// and the operation is a silent no-op.
pub fn fetch_user_emotes(session: &SessionSnapshot) -> (r: Option<&String>)
    ensures
        match r {
            Some(user) => session.token matches Some(t) && user@ == t.user_id@,
            None => session.token is None,
        },
{
    match &session.token {
        Some(t) => Some(&t.user_id),
        None => None,
    }
}

} // verus!
