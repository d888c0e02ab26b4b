//! A store in memory. Nothing outlives the process.

use crate::clock::system_seconds;
use crate::error::StoreError;
use crate::storage::traits::{
    archived_buddy,
    archived_interaction,
    buddies_of,
    buddy_archived,
    buddy_updated,
    buddy_views,
    interaction_archived,
    interaction_updated,
    interaction_views,
    interactions_of,
    owns_buddy,
    owns_interaction,
    updated_buddy,
    updated_interaction,
    AuthStore,
    BuddiesStore,
};
use crate::types::{
    Buddy,
    BuddyView,
    CreateUserRequest,
    Interaction,
    InteractionView,
    LoginRequest,
    Timestamp,
    UpdateBuddyRequest,
    UpdateInteractionRequest,
    User,
    UserView,
};
use std::collections::HashMap;
use vstd::prelude::*;

verus! {

broadcast use vstd::std_specs::hash::group_hash_axioms;

/// True when some user of the list has this email.
pub open spec fn has_email(users: Seq<User>, email: Seq<char>) -> bool {
    exists|i: int| 0 <= i < users.len() && (#[trigger] users[i]).email@ == email
}

/// True when `i` is the first place of the list with this email.
pub open spec fn is_first_with_email(users: Seq<User>, email: Seq<char>, i: int) -> bool {
    &&& 0 <= i < users.len()
    &&& users[i].email@ == email
    &&& forall|j: int| 0 <= j < i ==> (#[trigger] users[j]).email@ != email
}

/// The first place of the list with this email.
pub open spec fn first_with_email(users: Seq<User>, email: Seq<char>) -> int {
    choose|i: int| is_first_with_email(users, email, i)
}

/// The users of a list by email. Where an email occurs twice the first
/// occurrence counts.
pub open spec fn users_by_email(users: Seq<User>) -> Map<Seq<char>, UserView> {
    Map::new(
        |email: Seq<char>| has_email(users, email),
        |email: Seq<char>| users[first_with_email(users, email)]@,
    )
}

/// An email that occurs in a list has a first occurrence.
pub proof fn lemma_first_exists(users: Seq<User>, email: Seq<char>, i: int)
    requires
        0 <= i < users.len(),
        users[i].email@ == email,
    ensures
        exists|k: int| 0 <= k <= i && is_first_with_email(users, email, k),
    decreases i,
{
    if forall|j: int| 0 <= j < i ==> (#[trigger] users[j]).email@ != email {
        assert(is_first_with_email(users, email, i));
    } else {
        let j = choose|j: int| 0 <= j < i && !((#[trigger] users[j]).email@ != email);
        lemma_first_exists(users, email, j);
    }
}

/// The first occurrence of an email is the one `first_with_email` picks.
pub proof fn lemma_first_is_unique(users: Seq<User>, email: Seq<char>, i: int)
    requires
        is_first_with_email(users, email, i),
    ensures
        has_email(users, email),
        first_with_email(users, email) == i,
{
    let k = first_with_email(users, email);
    assert(is_first_with_email(users, email, k));
    if k < i {
        assert(users[k].email@ != email);
    }
    if i < k {
        assert(users[i].email@ != email);
    }
}

/// Adding a user under a new email adds one entry to the users by email and
/// leaves the others as they were.
pub proof fn lemma_push_new_email(users: Seq<User>, user: User)
    requires
        !has_email(users, user.email@),
    ensures
        users_by_email(users.push(user)) == users_by_email(users).insert(user.email@, user@),
{
    let after = users.push(user);
    let n = users.len() as int;
    assert(after[n] == user);
    assert forall|email: Seq<char>| has_email(after, email) <==> (has_email(users, email) || email
        == user.email@) by {
        if has_email(after, email) {
            let i = choose|i: int| 0 <= i < after.len() && (#[trigger] after[i]).email@ == email;
            if i < n {
                assert(users[i].email@ == email);
            }
        }
        if has_email(users, email) {
            let i = choose|i: int| 0 <= i < users.len() && (#[trigger] users[i]).email@ == email;
            assert(after[i].email@ == email);
        }
        if email == user.email@ {
            assert(after[n].email@ == email);
        }
    }
    assert forall|email: Seq<char>| has_email(after, email) implies #[trigger] users_by_email(
        after,
    )[email] == users_by_email(users).insert(user.email@, user@)[email] by {
        if email == user.email@ {
            assert forall|j: int| 0 <= j < n implies (#[trigger] after[j]).email@ != email by {
                assert(users[j].email@ != email);
            }
            assert(is_first_with_email(after, email, n));
            lemma_first_is_unique(after, email, n);
        } else {
            let i = choose|i: int| 0 <= i < users.len() && (#[trigger] users[i]).email@ == email;
            lemma_first_exists(users, email, i);
            let k = choose|k: int| 0 <= k <= i && is_first_with_email(users, email, k);
            lemma_first_is_unique(users, email, k);
            assert forall|j: int| 0 <= j < k implies (#[trigger] after[j]).email@ != email by {
                assert(users[j].email@ != email);
            }
            assert(after[k] == users[k]);
            assert(is_first_with_email(after, email, k));
            lemma_first_is_unique(after, email, k);
        }
    }
    assert(users_by_email(after) =~= users_by_email(users).insert(user.email@, user@));
}

/// In memory storage: a table of buddies, a table of interactions and a table
/// of users.
///
/// The table of users is a list in the order of registration. `create_user`
/// adds a user only under an email that is not in the list, so no email
/// comes to stand in it twice; what the store holds is read off the list
/// without leaning on that, by taking the first user of each email.
pub struct MemoryBuddiesStore {
    /// Represents a "buddies" table
    buddy_storage: HashMap<u128, Buddy>,
    /// Represents an "interactions" table
    interaction_storage: HashMap<u128, Interaction>,
    /// Represents an "users" table, in the order of registration
    user_storage: Vec<User>,
}

impl MemoryBuddiesStore {
    /// The users in the table, by email.
    pub closed spec fn user_table(&self) -> Map<Seq<char>, UserView> {
        users_by_email(self.user_storage@)
    }

    /// The buddies in the table.
    pub closed spec fn buddy_table(&self) -> Map<u128, BuddyView> {
        buddy_views(self.buddy_storage@)
    }

    /// The interactions in the table.
    pub closed spec fn interaction_table(&self) -> Map<u128, InteractionView> {
        interaction_views(self.interaction_storage@)
    }

    /// An empty store.
    pub fn new() -> (r: Self)
        ensures
            r.user_table() == Map::<Seq<char>, UserView>::empty(),
            r.buddy_table() == Map::<u128, BuddyView>::empty(),
            r.interaction_table() == Map::<u128, InteractionView>::empty(),
    {
        let r = Self {
            buddy_storage: HashMap::new(),
            interaction_storage: HashMap::new(),
            user_storage: Vec::new(),
        };
        assert(r.user_table() =~= Map::<Seq<char>, UserView>::empty());
        assert(r.buddy_table() =~= Map::<u128, BuddyView>::empty());
        assert(r.interaction_table() =~= Map::<u128, InteractionView>::empty());
        r
    }

    /// The buddy stored under `buddy_id`.
    pub fn get_buddy(&self, buddy_id: &u128) -> (r: Result<Buddy, StoreError>)
        ensures
            match r {
                Ok(buddy) => self.buddy_table().contains_key(*buddy_id) && self.buddy_table()[*buddy_id]
                    == buddy@,
                Err(e) => e == StoreError::NotFound && !self.buddy_table().contains_key(*buddy_id),
            },
    {
        match self.buddy_storage.get(buddy_id) {
            Some(buddy) => Ok(buddy.clone()),
            None => Err(StoreError::NotFound),
        }
    }

    /// The interaction stored under `interaction_id`.
    pub fn get_interaction(&self, interaction_id: &u128) -> (r: Result<Interaction, StoreError>)
        ensures
            match r {
                Ok(interaction) => self.interaction_table().contains_key(*interaction_id)
                    && self.interaction_table()[*interaction_id] == interaction@,
                Err(e) => e == StoreError::NotFound && !self.interaction_table().contains_key(
                    *interaction_id,
                ),
            },
    {
        match self.interaction_storage.get(interaction_id) {
            Some(interaction) => Ok(interaction.clone()),
            None => Err(StoreError::NotFound),
        }
    }

    /// The user registered under `email`.
    pub fn find_user(&self, email: &String) -> (r: Option<User>)
        ensures
            match r {
                Some(user) => self.user_table().contains_key(email@) && self.user_table()[email@] == user@,
                None => !self.user_table().contains_key(email@),
            },
    {
        let mut i: usize = 0;
        while i < self.user_storage.len()
            invariant
                0 <= i <= self.user_storage@.len(),
                forall|j: int| 0 <= j < i ==> (#[trigger] self.user_storage@[j]).email@ != email@,
            decreases self.user_storage@.len() - i,
        {
            if self.user_storage[i].email == *email {
                proof {
                    lemma_first_is_unique(self.user_storage@, email@, i as int);
                }
                return Some(self.user_storage[i].clone());
            }
            i += 1;
        }
        None
    }

    /// Whether the buddy `id` is stored and is `user_id`'s.
    fn holds_buddy_of(&self, id: u128, user_id: u128) -> (r: bool)
        ensures
            r == owns_buddy(self.buddy_table(), id, user_id),
    {
        match self.buddy_storage.get(&id) {
            Some(buddy) => buddy.user_id == user_id,
            None => false,
        }
    }

    /// Whether the interaction `id` is stored and is `user_id`'s.
    fn holds_interaction_of(&self, id: u128, user_id: u128) -> (r: bool)
        ensures
            r == owns_interaction(self.interaction_table(), id, user_id),
    {
        match self.interaction_storage.get(&id) {
            Some(interaction) => interaction.user_id == user_id,
            None => false,
        }
    }

    /// Archives the buddy `id` of `user_id` at the time `now`. A buddy that
    /// is not stored, or is someone else's, is not found.
    pub fn archive_buddy_at(&mut self, id: u128, user_id: u128, now: u64) -> (r: Result<
        (),
        StoreError,
    >)
        ensures
            final(self).interaction_table() == old(self).interaction_table(),
            final(self).user_table() == old(self).user_table(),
            owns_buddy(old(self).buddy_table(), id, user_id) ==> r is Ok && final(self).buddy_table()
                == old(self).buddy_table().insert(id, archived_buddy(old(self).buddy_table()[id], now)),
            !owns_buddy(old(self).buddy_table(), id, user_id) ==> r == Err::<(), StoreError>(
                StoreError::NotFound,
            ) && final(self).buddy_table() == old(self).buddy_table(),
    {
        let mut buddy = self.get_buddy(&id)?;
        if buddy.user_id != user_id {
            return Err(StoreError::NotFound);
        }
        buddy.delete_timestamp = Some(Timestamp(now));
        buddy.last_update_timestamp = Timestamp(now);
        self.buddy_storage.insert(id, buddy);
        assert(self.buddy_table() =~= old(self).buddy_table().insert(
            id,
            archived_buddy(old(self).buddy_table()[id], now),
        ));
        Ok(())
    }

    /// Archives the interaction `id` of `user_id` at the time `now`.
    pub fn archive_interaction_at(&mut self, id: u128, user_id: u128, now: u64) -> (r: Result<
        (),
        StoreError,
    >)
        ensures
            final(self).buddy_table() == old(self).buddy_table(),
            final(self).user_table() == old(self).user_table(),
            owns_interaction(old(self).interaction_table(), id, user_id) ==> r is Ok
                && final(self).interaction_table() == old(self).interaction_table().insert(
                id,
                archived_interaction(old(self).interaction_table()[id], now),
            ),
            !owns_interaction(old(self).interaction_table(), id, user_id) ==> r == Err::<
                (),
                StoreError,
            >(StoreError::NotFound) && final(self).interaction_table() == old(self).interaction_table(),
    {
        let mut interaction = self.get_interaction(&id)?;
        if interaction.user_id != user_id {
            return Err(StoreError::NotFound);
        }
        interaction.delete_timestamp = Some(Timestamp(now));
        interaction.last_update_timestamp = Timestamp(now);
        self.interaction_storage.insert(id, interaction);
        assert(self.interaction_table() =~= old(self).interaction_table().insert(
            id,
            archived_interaction(old(self).interaction_table()[id], now),
        ));
        Ok(())
    }

    /// Applies `request` to the buddy it names, at the time `now`.
    pub fn update_buddy_at(&mut self, request: UpdateBuddyRequest, now: u64) -> (r: Result<
        (),
        StoreError,
    >)
        ensures
            final(self).interaction_table() == old(self).interaction_table(),
            final(self).user_table() == old(self).user_table(),
            owns_buddy(old(self).buddy_table(), request.buddy_id, request.user_id) ==> r is Ok
                && final(self).buddy_table() == old(self).buddy_table().insert(
                request.buddy_id,
                updated_buddy(old(self).buddy_table()[request.buddy_id], request, now),
            ),
            !owns_buddy(old(self).buddy_table(), request.buddy_id, request.user_id) ==> r == Err::<
                (),
                StoreError,
            >(StoreError::NotFound) && final(self).buddy_table() == old(self).buddy_table(),
    {
        let mut buddy = self.get_buddy(&request.buddy_id)?;
        if buddy.user_id != request.user_id {
            return Err(StoreError::NotFound);
        }
        if let Some(name) = request.name {
            buddy.name = name;
        }
        if let Some(notes) = request.notes {
            buddy.notes = notes;
        }
        if let Some(last_contacted) = request.last_contacted {
            buddy.last_contacted = last_contacted;
        }
        if let Some(location) = request.location {
            buddy.location = Some(location);
        }
        if let Some(birthday) = request.birthday {
            buddy.birthday = Some(birthday);
        }
        buddy.last_update_timestamp = Timestamp(now);
        self.buddy_storage.insert(request.buddy_id, buddy);
        assert(self.buddy_table() =~= old(self).buddy_table().insert(
            request.buddy_id,
            updated_buddy(old(self).buddy_table()[request.buddy_id], request, now),
        ));
        Ok(())
    }

    /// Applies `request` to the interaction it names, at the time `now`.
    pub fn update_interaction_at(&mut self, request: UpdateInteractionRequest, now: u64) -> (r:
        Result<(), StoreError>)
        ensures
            final(self).buddy_table() == old(self).buddy_table(),
            final(self).user_table() == old(self).user_table(),
            owns_interaction(old(self).interaction_table(), request.interaction_id, request.user_id)
                ==> r is Ok && final(self).interaction_table() == old(self).interaction_table().insert(
                request.interaction_id,
                updated_interaction(
                    old(self).interaction_table()[request.interaction_id],
                    request,
                    now,
                ),
            ),
            !owns_interaction(old(self).interaction_table(), request.interaction_id, request.user_id)
                ==> r == Err::<(), StoreError>(StoreError::NotFound) && final(self).interaction_table()
                == old(self).interaction_table(),
    {
        let mut interaction = self.get_interaction(&request.interaction_id)?;
        if interaction.user_id != request.user_id {
            return Err(StoreError::NotFound);
        }
        interaction.last_update_timestamp = Timestamp(now);
        if let Some(notes) = request.notes {
            interaction.notes = notes;
        }
        if let Some(date) = request.date {
            interaction.date = Some(date);
        }
        if let Some(participants) = request.participants {
            interaction.participants = participants;
        }
        self.interaction_storage.insert(request.interaction_id, interaction);
        assert(self.interaction_table() =~= old(self).interaction_table().insert(
            request.interaction_id,
            updated_interaction(old(self).interaction_table()[request.interaction_id], request, now),
        ));
        Ok(())
    }
}

impl BuddiesStore for MemoryBuddiesStore {
    open spec fn buddies(&self) -> Map<u128, BuddyView> {
        self.buddy_table()
    }

    open spec fn interactions(&self) -> Map<u128, InteractionView> {
        self.interaction_table()
    }

    open spec fn reliable(&self) -> bool {
        true
    }

    fn create_buddy(&mut self, buddy: Buddy) -> (r: Result<(), StoreError>)
        ensures
            r is Ok,
            final(self).user_table() == old(self).user_table(),
    {
        let ghost stored = buddy@;
        self.buddy_storage.insert(buddy.id, buddy);
        assert(self.buddy_table() =~= old(self).buddy_table().insert(buddy.id, stored));
        Ok(())
    }

    fn create_interaction(&mut self, interaction: Interaction) -> (r: Result<(), StoreError>)
        ensures
            r is Ok,
            final(self).user_table() == old(self).user_table(),
    {
        let ghost stored = interaction@;
        self.interaction_storage.insert(interaction.id, interaction);
        assert(self.interaction_table() =~= old(self).interaction_table().insert(interaction.id, stored));
        Ok(())
    }

    fn get_buddies(&self, user_id: u128) -> (r: Result<HashMap<u128, Buddy>, StoreError>)
        ensures
            r is Ok,
    {
        let mut found: HashMap<u128, Buddy> = HashMap::new();
        let ghost all = self.buddy_storage@;
        for entry in it: self.buddy_storage.iter()
            invariant
                all == self.buddy_storage@,
                forall|id: u128| #[trigger]
                    found@.contains_key(id) ==> all.contains_key(id) && all[id]@ == found@[id]@
                        && all[id].user_id == user_id && all[id].delete_timestamp is None,
                forall|j: int|
                    0 <= j < it.index() && (*(#[trigger] it.seq()[j]).1).user_id == user_id && (
                    *it.seq()[j].1).delete_timestamp is None ==> found@.contains_key(
                        *it.seq()[j].0,
                    ),
        {
            let (id, buddy) = entry;
            if buddy.user_id == user_id && buddy.delete_timestamp.is_none() {
                found.insert(*id, buddy.clone());
            }
        }
        assert(buddy_views(found@) =~= buddies_of(self.buddy_table(), user_id));
        Ok(found)
    }

    fn get_interactions(&self, user_id: u128) -> (r: Result<HashMap<u128, Interaction>, StoreError>)
        ensures
            r is Ok,
    {
        let mut found: HashMap<u128, Interaction> = HashMap::new();
        let ghost all = self.interaction_storage@;
        for entry in it: self.interaction_storage.iter()
            invariant
                all == self.interaction_storage@,
                forall|id: u128| #[trigger]
                    found@.contains_key(id) ==> all.contains_key(id) && all[id]@ == found@[id]@
                        && all[id].user_id == user_id && all[id].delete_timestamp is None,
                forall|j: int|
                    0 <= j < it.index() && (*(#[trigger] it.seq()[j]).1).user_id == user_id && (
                    *it.seq()[j].1).delete_timestamp is None ==> found@.contains_key(
                        *it.seq()[j].0,
                    ),
        {
            let (id, interaction) = entry;
            if interaction.user_id == user_id && interaction.delete_timestamp.is_none() {
                found.insert(*id, interaction.clone());
            }
        }
        assert(interaction_views(found@) =~= interactions_of(self.interaction_table(), user_id));
        Ok(found)
    }

    /// Archives the buddy `id` of `user_id` as of now. A buddy that is not
    /// stored, or is someone else's, is not found, whatever the clock says;
    /// one that is stored is archived unless the clock gives no time.
    fn archive_buddy(&mut self, id: u128, user_id: u128) -> (r: Result<(), StoreError>)
        ensures
            final(self).user_table() == old(self).user_table(),
            !owns_buddy(old(self).buddy_table(), id, user_id) ==> r == Err::<(), StoreError>(
                StoreError::NotFound,
            ),
            owns_buddy(old(self).buddy_table(), id, user_id) ==> r is Ok || r == Err::<
                (),
                StoreError,
            >(StoreError::Unavailable),
    {
        if !self.holds_buddy_of(id, user_id) {
            return Err(StoreError::NotFound);
        }
        match system_seconds() {
            Some(now) => {
                let r = self.archive_buddy_at(id, user_id, now);
                assert(r is Ok ==> self.buddy_table() == old(self).buddy_table().insert(
                    id,
                    archived_buddy(old(self).buddy_table()[id], now),
                ));
                assert(r is Ok ==> buddy_archived(
                    old(self).buddy_table(),
                    self.buddy_table(),
                    id,
                    user_id,
                ));
                r
            },
            None => Err(StoreError::Unavailable),
        }
    }

    /// Archives the interaction `id` of `user_id` as of now. An interaction
    /// that is not stored, or is someone else's, is not found, whatever the
    /// clock says; one that is stored is archived unless the clock gives no
    /// time.
    fn archive_interaction(&mut self, id: u128, user_id: u128) -> (r: Result<(), StoreError>)
        ensures
            final(self).user_table() == old(self).user_table(),
            !owns_interaction(old(self).interaction_table(), id, user_id) ==> r == Err::<
                (),
                StoreError,
            >(StoreError::NotFound),
            owns_interaction(old(self).interaction_table(), id, user_id) ==> r is Ok || r
                == Err::<(), StoreError>(StoreError::Unavailable),
    {
        if !self.holds_interaction_of(id, user_id) {
            return Err(StoreError::NotFound);
        }
        match system_seconds() {
            Some(now) => {
                let r = self.archive_interaction_at(id, user_id, now);
                assert(r is Ok ==> self.interaction_table() == old(self).interaction_table().insert(
                    id,
                    archived_interaction(old(self).interaction_table()[id], now),
                ));
                assert(r is Ok ==> interaction_archived(
                    old(self).interaction_table(),
                    self.interaction_table(),
                    id,
                    user_id,
                ));
                r
            },
            None => Err(StoreError::Unavailable),
        }
    }

    /// Applies a request to the buddy it names, as of now. A buddy that is
    /// not stored, or is not the requester's, is not found, whatever the
    /// clock says; one that is stored is changed unless the clock gives no
    /// time.
    fn update_buddy(&mut self, request: UpdateBuddyRequest) -> (r: Result<(), StoreError>)
        ensures
            final(self).user_table() == old(self).user_table(),
            !owns_buddy(old(self).buddy_table(), request.buddy_id, request.user_id) ==> r
                == Err::<(), StoreError>(StoreError::NotFound),
            owns_buddy(old(self).buddy_table(), request.buddy_id, request.user_id) ==> r is Ok
                || r == Err::<(), StoreError>(StoreError::Unavailable),
    {
        if !self.holds_buddy_of(request.buddy_id, request.user_id) {
            return Err(StoreError::NotFound);
        }
        match system_seconds() {
            Some(now) => {
                let ghost id = request.buddy_id;
                let r = self.update_buddy_at(request, now);
                assert(r is Ok ==> self.buddy_table() == old(self).buddy_table().insert(
                    id,
                    updated_buddy(old(self).buddy_table()[id], request, now),
                ));
                assert(r is Ok ==> buddy_updated(
                    old(self).buddy_table(),
                    self.buddy_table(),
                    request,
                ));
                r
            },
            None => Err(StoreError::Unavailable),
        }
    }

    /// Applies a request to the interaction it names, as of now. An
    /// interaction that is not stored, or is not the requester's, is not
    /// found, whatever the clock says; one that is stored is changed unless
    /// the clock gives no time.
    fn update_interaction(&mut self, request: UpdateInteractionRequest) -> (r: Result<
        (),
        StoreError,
    >)
        ensures
            final(self).user_table() == old(self).user_table(),
            !owns_interaction(
                old(self).interaction_table(),
                request.interaction_id,
                request.user_id,
            ) ==> r == Err::<(), StoreError>(StoreError::NotFound),
            owns_interaction(
                old(self).interaction_table(),
                request.interaction_id,
                request.user_id,
            ) ==> r is Ok || r == Err::<(), StoreError>(StoreError::Unavailable),
    {
        if !self.holds_interaction_of(request.interaction_id, request.user_id) {
            return Err(StoreError::NotFound);
        }
        match system_seconds() {
            Some(now) => {
                let ghost id = request.interaction_id;
                let r = self.update_interaction_at(request, now);
                assert(r is Ok ==> self.interaction_table() == old(self).interaction_table().insert(
                    id,
                    updated_interaction(old(self).interaction_table()[id], request, now),
                ));
                assert(r is Ok ==> interaction_updated(
                    old(self).interaction_table(),
                    self.interaction_table(),
                    request,
                ));
                r
            },
            None => Err(StoreError::Unavailable),
        }
    }
}

impl AuthStore for MemoryBuddiesStore {
    open spec fn users(&self) -> Map<Seq<char>, UserView> {
        self.user_table()
    }

    open spec fn reliable(&self) -> bool {
        true
    }

    fn create_user(&mut self, request: CreateUserRequest) -> (r: Result<(), StoreError>)
        ensures
            r is Ok <==> !old(self).user_table().contains_key(request.user@.email),
            r is Err ==> r == Err::<(), StoreError>(StoreError::DuplicateEmail),
            final(self).buddy_table() == old(self).buddy_table(),
            final(self).interaction_table() == old(self).interaction_table(),
    {
        match self.find_user(&request.user.email) {
            Some(_) => Err(StoreError::DuplicateEmail),
            None => {
                proof {
                    lemma_push_new_email(self.user_storage@, request.user);
                }
                self.user_storage.push(request.user);
                Ok(())
            },
        }
    }

    fn get_user(&self, request: &LoginRequest) -> (r: Result<User, StoreError>)
        ensures
            r is Ok <==> self.user_table().contains_key(request.email@),
            r is Err ==> r == Err::<User, StoreError>(StoreError::NotFound),
    {
        match self.find_user(&request.email) {
            Some(user) => Ok(user),
            None => Err(StoreError::NotFound),
        }
    }
}

} // verus!
