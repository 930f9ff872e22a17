//! The process state container: the one connection, the one key and the
//! token guard. Each of the three is a resource of its own, to be put behind
//! its own lock and handed to the operations that work on it; each starts
//! out empty and must be initialized before use.

use crate::oauth::OauthStates;
use crate::textmap::TextMap;
use vstd::prelude::*;

verus! {

/// What the process holds between calls.
pub struct AppState {
    /// The connection to the relational store, once one is installed.
    pub db: Option<rusqlite::Connection>,
    /// The derived encryption key, once a passphrase was given.
    pub encryption_key: Option<[u8; 32]>,
    /// The tokens that are out, by provider.
    pub oauth_states: OauthStates,
}

impl AppState {
    /// The state of a process that has initialized nothing yet.
    pub fn new() -> (state: AppState)
        ensures
            state.db is None,
            state.encryption_key is None,
            state.oauth_states@ == Map::<Seq<char>, Seq<char>>::empty(),
    {
        AppState { db: None, encryption_key: None, oauth_states: TextMap::new() }
    }
}

} // verus!
