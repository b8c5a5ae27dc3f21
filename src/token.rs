//! The token request/response path: the single result that the fetch task
//! hands back, and the one callback invocation that reports it.
use vstd::prelude::*;

verus! {

/// An access token as the caller receives it.
pub struct AccessToken {
    pub token: String,
    pub scope: Vec<String>,
    pub expires_in: u32,
}

/// Why no token could be had.
#[derive(Clone, Copy, Debug, PartialEq, Eq, Structural)]
pub enum FetchError {
    /// The fetch itself failed.
    Failed,
    /// The fetch task dropped its end of the handoff without answering.
    ChannelBroken,
}

/// What the callback is handed for a fetch result: the token, or nothing.
pub open spec fn callback_argument(res: Result<AccessToken, FetchError>) -> Option<AccessToken> {
    match res {
        Ok(t) => Some(t),
        Err(_) => None,
    }
}

/// The fetch result carried by a handoff receive: a broken handoff counts
/// as a failed fetch.
pub open spec fn received_result(
    received: Option<Result<AccessToken, FetchError>>,
) -> Result<AccessToken, FetchError> {
    match received {
        Some(res) => res,
        None => Err(FetchError::ChannelBroken),
    }
}

impl AccessToken {
    /// A token with its scopes and its lifetime in seconds.
    pub fn new(token: String, scope: Vec<String>, expires_in: u32) -> (r: AccessToken)
        ensures
            r.token@ == token@,
            r.scope@ == scope@,
            r.expires_in == expires_in,
    {
        AccessToken { token, scope, expires_in }
    }

    /// The token string.
    pub fn token(&self) -> (r: &String)
        ensures
            r@ == self.token@,
    {
        &self.token
    }

    /// The scopes the token was granted for.
    pub fn scope(&self) -> (r: &Vec<String>)
        ensures
            r@ == self.scope@,
    {
        &self.scope
    }

    /// Seconds until the token expires.
    pub fn expires_in(&self) -> (r: u32)
        ensures
            r == self.expires_in,
    {
        self.expires_in
    }
}

/// Turns what one receive on the token handoff gave (`None` when the
/// sender was dropped) into the fetch result.
pub fn fetch_result(
    received: Option<Result<AccessToken, FetchError>>,
) -> (r: Result<AccessToken, FetchError>)
    ensures
        r == received_result(received),
{
    match received {
        Some(res) => res,
        None => Err(FetchError::ChannelBroken),
    }
}

/// The value the callback is handed: `Some` with the token on success,
/// `None` on any failure.
pub fn token_for_callback(res: Result<AccessToken, FetchError>) -> (r: Option<AccessToken>)
    ensures
        r == callback_argument(res),
{
    match res {
        Ok(t) => Some(t),
        Err(_) => None,
    }
}

/// Reports one fetch result: the callback is invoked exactly once, with
/// the token on success and with `None` on failure.
pub fn deliver_token<F: FnOnce(Option<AccessToken>)>(
    received: Option<Result<AccessToken, FetchError>>,
    cb: F,
)
    requires
        call_requires(cb, (callback_argument(received_result(received)),)),
    ensures
        call_ensures(cb, (callback_argument(received_result(received)),), ()),
{
    let res = fetch_result(received);
    let arg = token_for_callback(res);
    cb(arg);
}

/// Whatever one receive on the token handoff gave, the callback's argument
/// is the fetched token exactly when the fetch succeeded, and nothing when
/// it failed or its task dropped the handoff.
pub proof fn lemma_token_round_trip(received: Option<Result<AccessToken, FetchError>>)
    ensures
        callback_argument(received_result(received)) is Some <==> (received is Some
            && received->Some_0 is Ok),
        received is Some && received->Some_0 is Ok ==> callback_argument(
            received_result(received),
        ) == Some(received->Some_0->Ok_0),
{
}

} // verus!
