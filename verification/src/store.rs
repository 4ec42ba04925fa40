//! The session store: one slot that holds the session between runs.
//!
//! The slot is a file named [`STORE_FILE_NAME`] in the user's home directory.
//! The functions here work on what that file holds; reading it before and
//! writing it after is the caller's part.

use vstd::prelude::*;
use vstd::string::*;
use crate::client::{LinkboxClient, SessionView};
use crate::text::{ends_with_slash, strip_trailing_slash};

verus! {

/// The name of the file, in the user's home directory, that holds the session.
pub const STORE_FILE_NAME: &'static str = ".lbcli.json";

/// A stored session: the server's address and the token.
#[derive(Debug, Clone, PartialEq, Eq)]
pub struct StoreData {
    pub base_url: String,
    pub jwt: String,
}

/// What the store's file holds.
#[derive(Debug, Clone, PartialEq, Eq)]
pub enum Store {
    /// There is no file.
    Empty,
    /// There is a file, and it does not hold a session.
    Malformed,
    /// There is a file, and it holds this session.
    Session(StoreData),
}

/// Why the store could not do what was asked.
#[derive(Debug, Clone, Copy, PartialEq, Eq)]
pub enum StoreError {
    /// The file does not hold a session.
    Malformed,
    /// There is no file to remove.
    Missing,
}

/// The mathematical content of a [`Store`].
pub enum StoreView {
    Empty,
    Malformed,
    Session { base_url: Seq<char>, jwt: Seq<char> },
}

impl View for Store {
    type V = StoreView;

    open spec fn view(&self) -> StoreView {
        match self {
            Store::Empty => StoreView::Empty,
            Store::Malformed => StoreView::Malformed,
            Store::Session(data) => StoreView::Session { base_url: data.base_url@, jwt: data.jwt@ },
        }
    }
}

/// The session that a store yields: none from an empty store, and from a
/// stored session a client built from its address, holding its token.
pub open spec fn spec_load(store: StoreView) -> Result<Option<SessionView>, StoreError> {
    match store {
        StoreView::Empty => Ok(None),
        StoreView::Malformed => Err(StoreError::Malformed),
        StoreView::Session { base_url, jwt } => Ok(
            Some(SessionView { base_url: strip_trailing_slash(base_url), token: Some(jwt) }),
        ),
    }
}

/// The store after saving `session` to it: a session with a token takes the
/// slot, one without leaves the store as it was.
pub open spec fn spec_save(store: StoreView, session: SessionView) -> StoreView {
    match session.token {
        Some(token) => StoreView::Session { base_url: session.base_url, jwt: token },
        None => store,
    }
}

/// A loaded session with the client replaced by its content.
pub open spec fn loaded(r: Result<Option<LinkboxClient>, StoreError>) -> Result<
    Option<SessionView>,
    StoreError,
> {
    match r {
        Ok(Some(client)) => Ok(Some(client@)),
        Ok(None) => Ok(None),
        Err(e) => Err(e),
    }
}

/// Restores the client from the store, if the store holds a session.
pub fn load_from_store(store: &Store) -> (r: Result<Option<LinkboxClient>, StoreError>)
    ensures
        loaded(r) == spec_load(store@),
{
    match store {
        Store::Empty => Ok(None),
        Store::Malformed => Err(StoreError::Malformed),
        Store::Session(data) => {
            let client: LinkboxClient = LinkboxClient::new(data.base_url.clone()).with_jwt(
                data.jwt.clone(),
            );
            Ok(Some(client))
        },
    }
}

/// Puts the client's session into the store and says whether it did. A
/// client without a token has nothing to keep: the store is left untouched.
pub fn save_to_store(store: &mut Store, client: &LinkboxClient) -> (saved: bool)
    ensures
        saved == client@.token is Some,
        final(store)@ == spec_save(old(store)@, client@),
        !saved ==> *final(store) == *old(store),
{
    match client.get_jwt() {
        Some(jwt) => {
            *store = Store::Session(StoreData { jwt, base_url: client.get_base_url() });
            true
        },
        None => false,
    }
}

/// Empties the store. There must be a file to remove: an empty store is an
/// error, and is left as it was.
pub fn remove_store(store: &mut Store) -> (r: Result<(), StoreError>)
    ensures
        old(store)@ is Empty ==> r == Err::<(), StoreError>(StoreError::Missing),
        old(store)@ !is Empty ==> r is Ok,
        final(store)@ is Empty,
{
    match store {
        Store::Empty => Err(StoreError::Missing),
        _ => {
            *store = Store::Empty;
            Ok(())
        },
    }
}

/// What was saved is what is loaded: after a session with a token is saved,
/// whatever the store held before, loading yields that address and that
/// token, provided that the address does not end in `/`.
pub proof fn lemma_save_then_load(store: StoreView, session: SessionView)
    requires
        session.token is Some,
        !ends_with_slash(session.base_url),
    ensures
        spec_load(spec_save(store, session)) == Ok::<Option<SessionView>, StoreError>(
            Some(session),
        ),
{
}

/// Saving a session without a token changes nothing: what is loaded after it
/// is what would have been loaded before.
pub proof fn lemma_save_without_token(store: StoreView, session: SessionView)
    requires
        session.token is None,
    ensures
        spec_save(store, session) == store,
        spec_load(spec_save(store, session)) == spec_load(store),
{
}

} // verus!
