//! The CSRF state guard of the authorization flow: for every provider the
//! most recently issued token, consumed by the first validation that
//! presents it. A token lives until it is validated or overwritten; nothing
//! expires on its own.

use crate::error::SidecarError;
use crate::textmap::TextMap;
use vstd::prelude::*;

verus! {

/// The tokens that are out, by provider.
pub type OauthStates = TextMap<String>;

/// The guard after `token` was issued to `provider`: an earlier token of the
/// same provider is overwritten.
pub open spec fn issued(
    states: Map<Seq<char>, Seq<char>>,
    provider: Seq<char>,
    token: Seq<char>,
) -> Map<Seq<char>, Seq<char>> {
    states.insert(provider, token)
}

/// Whether `candidate` is the token that is out for `provider`.
pub open spec fn accepts(
    states: Map<Seq<char>, Seq<char>>,
    provider: Seq<char>,
    candidate: Seq<char>,
) -> bool {
    states.contains_key(provider) && states[provider] == candidate
}

/// The guard after `candidate` was presented for `provider`: the token is
/// consumed where it matches, and everything stays where it does not.
pub open spec fn validated(
    states: Map<Seq<char>, Seq<char>>,
    provider: Seq<char>,
    candidate: Seq<char>,
) -> Map<Seq<char>, Seq<char>> {
    if accepts(states, provider, candidate) {
        states.remove(provider)
    } else {
        states
    }
}

/// A token is good for one validation: the first succeeds and the second,
/// with the same token, fails.
pub proof fn lemma_token_is_single_use(
    states: Map<Seq<char>, Seq<char>>,
    provider: Seq<char>,
    token: Seq<char>,
)
    ensures
        accepts(issued(states, provider, token), provider, token),
        !accepts(
            validated(issued(states, provider, token), provider, token),
            provider,
            token,
        ),
{
}

/// A wrong guess does not burn the token: it fails, and the right token
/// still validates afterwards.
pub proof fn lemma_wrong_guess_keeps_token(
    states: Map<Seq<char>, Seq<char>>,
    provider: Seq<char>,
    token: Seq<char>,
    guess: Seq<char>,
)
    requires
        guess != token,
    ensures
        !accepts(issued(states, provider, token), provider, guess),
        accepts(
            validated(issued(states, provider, token), provider, guess),
            provider,
            token,
        ),
{
}

/// Issuing again overwrites: only the newer token validates.
pub proof fn lemma_reissue_overwrites(
    states: Map<Seq<char>, Seq<char>>,
    provider: Seq<char>,
    first: Seq<char>,
    second: Seq<char>,
)
    requires
        first != second,
    ensures
        !accepts(issued(issued(states, provider, first), provider, second), provider, first),
        accepts(issued(issued(states, provider, first), provider, second), provider, second),
{
}

/// One provider's token never touches another's: issuing and validating for
/// `provider` leave what is out for `other` as it was.
pub proof fn lemma_providers_are_independent(
    states: Map<Seq<char>, Seq<char>>,
    provider: Seq<char>,
    other: Seq<char>,
    token: Seq<char>,
    candidate: Seq<char>,
)
    requires
        provider != other,
    ensures
        accepts(issued(states, provider, token), other, candidate) == accepts(
            states,
            other,
            candidate,
        ),
        accepts(validated(states, provider, token), other, candidate) == accepts(
            states,
            other,
            candidate,
        ),
{
}

/// Records `oauth_state` as the token that is out for `provider`. There is
/// no error case.
pub fn store_oauth_state(states: &mut OauthStates, provider: String, oauth_state: String) -> (result:
    Result<(), SidecarError>)
    ensures
        result is Ok,
        final(states)@ == issued(old(states)@, provider@, oauth_state@),
{
    states.insert(provider, oauth_state);
    Ok(())
}

/// Checks `oauth_state` against the token that is out for `provider`. A
/// match consumes the token and answers `true`; anything else answers
/// `false` and leaves the guard untouched.
pub fn validate_oauth_state(
    states: &mut OauthStates,
    provider: String,
    oauth_state: String,
) -> (result: Result<bool, SidecarError>)
    ensures
        result matches Ok(valid) && valid == accepts(old(states)@, provider@, oauth_state@),
        final(states)@ == validated(old(states)@, provider@, oauth_state@),
{
    let matched = match states.get(&provider) {
        Some(stored) => *stored == oauth_state,
        None => false,
    };
    if matched {
        states.remove(&provider);
        Ok(true)
    } else {
        Ok(false)
    }
}

} // verus!
