//! The participant registry's rules: usernames are trimmed and lowercased,
//! an existing participant is returned unchanged, a new one starts with no
//! votes.
use vstd::prelude::*;

use crate::model::{Invalid, PollError, User};
use crate::platform::{fresh_id, lower_of, lowercase, now_micros, trim_of, trimmed};

verus! {

/// The stored form of a username: trimmed, then lowercased.
pub open spec fn normalized(raw: Seq<char>) -> Seq<char> {
    lower_of(trim_of(raw))
}

/// Normalises a username, refusing one that is empty once normalised.
pub fn normalize_username(raw: &str) -> (r: Result<String, PollError>)
    ensures
        r is Ok <==> normalized(raw@).len() > 0,
        r matches Ok(name) ==> name@ == normalized(raw@),
        r is Err ==> r == Err::<String, PollError>(PollError::Validation(Invalid::EmptyUsername)),
{
    let name = lowercase(trimmed(raw));
    if name.as_str().is_empty() {
        Err(PollError::Validation(Invalid::EmptyUsername))
    } else {
        Ok(name)
    }
}

/// The outcome of looking a participant up by name, creating them if absent.
#[derive(Debug, Clone)]
pub enum Registration {
    /// The participant was stored already and is returned unchanged.
    Existing(User),
    /// The participant is new and is to be stored.
    Created(User),
}

impl Registration {
    /// The participant of either outcome.
    pub open spec fn user_spec(self) -> User {
        match self {
            Registration::Existing(u) => u,
            Registration::Created(u) => u,
        }
    }

    /// The participant of either outcome.
    pub fn user(self) -> (r: User)
        ensures
            r == self.user_spec(),
    {
        match self {
            Registration::Existing(u) => u,
            Registration::Created(u) => u,
        }
    }
}

/// `r` is what find-or-create may give for the name `name`, where the lookup
/// by that name found `found`: the stored participant unchanged, or a new one
/// with that name and no votes.
pub open spec fn registration_outcome(found: Option<User>, name: Seq<char>, r: Registration) -> bool {
    match found {
        Some(u) => r == Registration::Existing(u),
        None => r matches Registration::Created(n) && n.username@ == name
            && n.voted_polls@.len() == 0,
    }
}

/// Decides find-or-create from the lookup's result, with the identifier and
/// timestamp a new participant would get.
pub fn resolve_registration(found: Option<User>, name: String, id: u128, now: i64) -> (r:
    Registration)
    ensures
        registration_outcome(found, name@, r),
        found is None ==> r.user_spec().id == id && r.user_spec().user_creation_time == now,
{
    match found {
        Some(u) => Registration::Existing(u),
        None => Registration::Created(
            User { id, username: name, user_creation_time: now, voted_polls: Vec::new() },
        ),
    }
}

/// Decides find-or-create from the lookup's result; a new participant gets a
/// fresh identifier and the current time.
pub fn find_or_create(found: Option<User>, name: String) -> (r: Registration)
    ensures
        registration_outcome(found, name@, r),
        found is None ==> r.user_spec().user_creation_time >= 0,
{
    match found {
        Some(u) => Registration::Existing(u),
        None => {
            let id = fresh_id();
            let now = now_micros();
            resolve_registration(None, name, id, now)
        },
    }
}

/// Logging in needs a stored participant.
pub fn login(found: Option<User>) -> (r: Result<User, PollError>)
    ensures
        found matches Some(u) ==> r == Ok::<User, PollError>(u),
        found is None ==> r == Err::<User, PollError>(PollError::NotFound),
{
    match found {
        Some(u) => Ok(u),
        None => Err(PollError::NotFound),
    }
}

/// Appends a poll to the participant's voting history; the caller has checked
/// that it is not there yet.
pub fn record_vote(user: &mut User, poll_id: u128)
    ensures
        final(user).voted_polls@ == old(user).voted_polls@.push(poll_id),
        final(user).id == old(user).id,
        final(user).username == old(user).username,
        final(user).user_creation_time == old(user).user_creation_time,
{
    user.voted_polls.push(poll_id);
}

/// Stored participants keyed by username, each under its own name.
pub open spec fn store_wf(store: Map<Seq<char>, User>) -> bool {
    forall|k: Seq<char>| #[trigger] store.contains_key(k) ==> store[k].username@ == k
}

/// Looking a participant up by username in the store.
pub open spec fn lookup(store: Map<Seq<char>, User>, name: Seq<char>) -> Option<User> {
    if store.contains_key(name) {
        Some(store[name])
    } else {
        None
    }
}

/// The store once a registration outcome is persisted.
pub open spec fn store_after(store: Map<Seq<char>, User>, r: Registration) -> Map<Seq<char>, User> {
    match r {
        Registration::Existing(_) => store,
        Registration::Created(u) => store.insert(u.username@, u),
    }
}

/// Find-or-create is idempotent across spellings of a username that normalise
/// alike ("Alice", "alice"): the second call returns the participant of the
/// first and stores nothing.
pub proof fn lemma_find_or_create_idempotent(
    store: Map<Seq<char>, User>,
    first: Seq<char>,
    second: Seq<char>,
    r1: Registration,
    r2: Registration,
)
    requires
        store_wf(store),
        normalized(first) == normalized(second),
        registration_outcome(lookup(store, normalized(first)), normalized(first), r1),
        registration_outcome(
            lookup(store_after(store, r1), normalized(second)),
            normalized(second),
            r2,
        ),
    ensures
        r2 is Existing,
        r2.user_spec() == r1.user_spec(),
        store_after(store_after(store, r1), r2) == store_after(store, r1),
        store_wf(store_after(store, r1)),
{
    let name = normalized(first);
    let s1 = store_after(store, r1);
    match r1 {
        Registration::Existing(u) => {
            assert(store.contains_key(name));
        },
        Registration::Created(u) => {
            assert(u.username@ == name);
            assert(s1.contains_key(name));
            assert forall|k: Seq<char>| #[trigger] s1.contains_key(k) implies s1[k].username@
                == k by {
                if k != name {
                    assert(store.contains_key(k));
                }
            }
        },
    }
    assert(s1.contains_key(name));
}

} // verus!
