//! What the service asks of a store.
//!
//! A store is described by what it holds: users by email, buddies and
//! interactions by identifier. Each operation says how that changes, for a
//! store that declares itself reliable. A store that fails says so and
//! leaves what it holds as it was.

use crate::error::StoreError;
use crate::types::{
    Buddy,
    BuddyView,
    CreateUserRequest,
    Interaction,
    InteractionView,
    LoginRequest,
    UpdateBuddyRequest,
    UpdateInteractionRequest,
    User,
    UserView,
};
use std::collections::HashMap;
use vstd::prelude::*;

verus! {

/// The buddies of `user_id` that are not archived.
pub open spec fn buddies_of(all: Map<u128, BuddyView>, user_id: u128) -> Map<u128, BuddyView> {
    Map::new(
        |id: u128|
            all.contains_key(id) && all[id].user_id == user_id && all[id].delete_timestamp is None,
        |id: u128| all[id],
    )
}

/// The interactions of `user_id` that are not archived.
pub open spec fn interactions_of(all: Map<u128, InteractionView>, user_id: u128) -> Map<
    u128,
    InteractionView,
> {
    Map::new(
        |id: u128|
            all.contains_key(id) && all[id].user_id == user_id && all[id].delete_timestamp is None,
        |id: u128| all[id],
    )
}

/// The views of the buddies in a map.
pub open spec fn buddy_views(m: Map<u128, Buddy>) -> Map<u128, BuddyView> {
    Map::new(|id: u128| m.contains_key(id), |id: u128| m[id]@)
}

/// The views of the interactions in a map.
pub open spec fn interaction_views(m: Map<u128, Interaction>) -> Map<u128, InteractionView> {
    Map::new(|id: u128| m.contains_key(id), |id: u128| m[id]@)
}

/// True when `user_id` may change the buddy `id`: it is stored and is theirs.
pub open spec fn owns_buddy(all: Map<u128, BuddyView>, id: u128, user_id: u128) -> bool {
    all.contains_key(id) && all[id].user_id == user_id
}

/// True when `user_id` may change the interaction `id`.
pub open spec fn owns_interaction(all: Map<u128, InteractionView>, id: u128, user_id: u128) -> bool {
    all.contains_key(id) && all[id].user_id == user_id
}

/// A buddy once it is archived at the time `now`.
pub open spec fn archived_buddy(buddy: BuddyView, now: u64) -> BuddyView {
    BuddyView { delete_timestamp: Some(now), last_update_timestamp: now, ..buddy }
}

/// An interaction once it is archived at the time `now`.
pub open spec fn archived_interaction(interaction: InteractionView, now: u64) -> InteractionView {
    InteractionView { delete_timestamp: Some(now), last_update_timestamp: now, ..interaction }
}

/// A buddy once `request` is applied at the time `now`: each field that the
/// request names takes the new value, the others stay.
pub open spec fn updated_buddy(buddy: BuddyView, request: UpdateBuddyRequest, now: u64) -> BuddyView {
    BuddyView {
        name: match request.name {
            Some(name) => name@,
            None => buddy.name,
        },
        notes: match request.notes {
            Some(notes) => notes@,
            None => buddy.notes,
        },
        last_contacted: match request.last_contacted {
            Some(date) => date@,
            None => buddy.last_contacted,
        },
        location: match request.location {
            Some(place) => Some(place@),
            None => buddy.location,
        },
        birthday: match request.birthday {
            Some(date) => Some(date@),
            None => buddy.birthday,
        },
        last_update_timestamp: now,
        ..buddy
    }
}

/// An interaction once `request` is applied at the time `now`.
pub open spec fn updated_interaction(
    interaction: InteractionView,
    request: UpdateInteractionRequest,
    now: u64,
) -> InteractionView {
    InteractionView {
        notes: match request.notes {
            Some(notes) => notes@,
            None => interaction.notes,
        },
        date: match request.date {
            Some(date) => Some(date@),
            None => interaction.date,
        },
        participants: match request.participants {
            Some(ids) => ids@,
            None => interaction.participants,
        },
        last_update_timestamp: now,
        ..interaction
    }
}

/// True when `after` is `before` with the buddy `id` of `user_id` archived at
/// some time.
pub open spec fn buddy_archived(
    before: Map<u128, BuddyView>,
    after: Map<u128, BuddyView>,
    id: u128,
    user_id: u128,
) -> bool {
    owns_buddy(before, id, user_id) && exists|now: u64|
        after == before.insert(id, #[trigger] archived_buddy(before[id], now))
}

/// True when `after` is `before` with the interaction `id` of `user_id`
/// archived at some time.
pub open spec fn interaction_archived(
    before: Map<u128, InteractionView>,
    after: Map<u128, InteractionView>,
    id: u128,
    user_id: u128,
) -> bool {
    owns_interaction(before, id, user_id) && exists|now: u64|
        after == before.insert(id, #[trigger] archived_interaction(before[id], now))
}

/// True when `after` is `before` with the request applied at some time to
/// the buddy it names, which is the requester's.
pub open spec fn buddy_updated(
    before: Map<u128, BuddyView>,
    after: Map<u128, BuddyView>,
    request: UpdateBuddyRequest,
) -> bool {
    owns_buddy(before, request.buddy_id, request.user_id) && exists|now: u64|
        after == before.insert(
            request.buddy_id,
            #[trigger] updated_buddy(before[request.buddy_id], request, now),
        )
}

/// True when `after` is `before` with the request applied at some time to
/// the interaction it names, which is the requester's.
pub open spec fn interaction_updated(
    before: Map<u128, InteractionView>,
    after: Map<u128, InteractionView>,
    request: UpdateInteractionRequest,
) -> bool {
    owns_interaction(before, request.interaction_id, request.user_id) && exists|now: u64|
        after == before.insert(
            request.interaction_id,
            #[trigger] updated_interaction(before[request.interaction_id], request, now),
        )
}

/// A store of buddies and interactions.
///
/// A store that is `reliable` keeps what the operations below say. A store
/// outside this library is not, unless it says so: nothing is claimed of it.
pub trait BuddiesStore: Sized {
    /// The buddies the store holds, archived ones included.
    open spec fn buddies(&self) -> Map<u128, BuddyView> {
        Map::empty()
    }

    /// The interactions the store holds, archived ones included.
    open spec fn interactions(&self) -> Map<u128, InteractionView> {
        Map::empty()
    }

    /// True of a store that holds what `buddies` and `interactions` say and
    /// changes it only as its operations say.
    open spec fn reliable(&self) -> bool {
        false
    }

    /// Stores a buddy under its identifier.
    fn create_buddy(&mut self, buddy: Buddy) -> (r: Result<(), StoreError>)
        ensures
            old(self).reliable() ==> {
                &&& final(self).reliable()
                &&& final(self).interactions() == old(self).interactions()
                &&& r is Ok ==> final(self).buddies() == old(self).buddies().insert(
                    buddy.id,
                    buddy@,
                )
                &&& r is Err ==> final(self).buddies() == old(self).buddies()
            },
    ;

    /// Archives the buddy `id` of `user_id`.
    fn archive_buddy(&mut self, id: u128, user_id: u128) -> (r: Result<(), StoreError>)
        ensures
            old(self).reliable() ==> {
                &&& final(self).reliable()
                &&& final(self).interactions() == old(self).interactions()
                &&& r is Ok ==> buddy_archived(old(self).buddies(), final(self).buddies(), id, user_id)
                &&& r is Err ==> final(self).buddies() == old(self).buddies()
            },
    ;

    /// Stores an interaction under its identifier.
    fn create_interaction(&mut self, interaction: Interaction) -> (r: Result<(), StoreError>)
        ensures
            old(self).reliable() ==> {
                &&& final(self).reliable()
                &&& final(self).buddies() == old(self).buddies()
                &&& r is Ok ==> final(self).interactions() == old(self).interactions().insert(
                    interaction.id,
                    interaction@,
                )
                &&& r is Err ==> final(self).interactions() == old(self).interactions()
            },
    ;

    /// Archives the interaction `id` of `user_id`.
    fn archive_interaction(&mut self, id: u128, user_id: u128) -> (r: Result<(), StoreError>)
        ensures
            old(self).reliable() ==> {
                &&& final(self).reliable()
                &&& final(self).buddies() == old(self).buddies()
                &&& r is Ok ==> interaction_archived(
                    old(self).interactions(),
                    final(self).interactions(),
                    id,
                    user_id,
                )
                &&& r is Err ==> final(self).interactions() == old(self).interactions()
            },
    ;

    /// The buddies of `user_id` that are not archived.
    fn get_buddies(&self, user_id: u128) -> (r: Result<HashMap<u128, Buddy>, StoreError>)
        ensures
            self.reliable() ==> (r matches Ok(found) ==> buddy_views(found@) == buddies_of(
                self.buddies(),
                user_id,
            )),
    ;

    /// The interactions of `user_id` that are not archived.
    fn get_interactions(&self, user_id: u128) -> (r: Result<
        HashMap<u128, Interaction>,
        StoreError,
    >)
        ensures
            self.reliable() ==> (r matches Ok(found) ==> interaction_views(found@)
                == interactions_of(self.interactions(), user_id)),
    ;

    /// Changes the buddy that the request names.
    fn update_buddy(&mut self, request: UpdateBuddyRequest) -> (r: Result<(), StoreError>)
        ensures
            old(self).reliable() ==> {
                &&& final(self).reliable()
                &&& final(self).interactions() == old(self).interactions()
                &&& r is Ok ==> buddy_updated(old(self).buddies(), final(self).buddies(), request)
                &&& r is Err ==> final(self).buddies() == old(self).buddies()
            },
    ;

    /// Changes the interaction that the request names.
    fn update_interaction(&mut self, request: UpdateInteractionRequest) -> (r: Result<
        (),
        StoreError,
    >)
        ensures
            old(self).reliable() ==> {
                &&& final(self).reliable()
                &&& final(self).buddies() == old(self).buddies()
                &&& r is Ok ==> interaction_updated(
                    old(self).interactions(),
                    final(self).interactions(),
                    request,
                )
                &&& r is Err ==> final(self).interactions() == old(self).interactions()
            },
    ;
}

/// A store of users.
///
/// A store that is `reliable` keeps what the operations below say, and fails
/// only for what it holds: it finds every user it holds and registers every
/// user whose email is free. A store outside this library is not, unless it
/// says so: nothing is claimed of it.
pub trait AuthStore: Sized {
    /// The registered users, by email.
    open spec fn users(&self) -> Map<Seq<char>, UserView> {
        Map::empty()
    }

    /// True of a store that holds what `users` says, changes it only as its
    /// operations say, and fails only for what it holds.
    open spec fn reliable(&self) -> bool {
        false
    }

    /// Registers a user. An email can be registered once: where it is taken
    /// the store refuses.
    fn create_user(&mut self, request: CreateUserRequest) -> (r: Result<(), StoreError>)
        ensures
            old(self).reliable() ==> {
                &&& final(self).reliable()
                &&& r is Ok <==> !old(self).users().contains_key(request.user@.email)
                &&& r is Ok ==> final(self).users() == old(self).users().insert(
                    request.user@.email,
                    request.user@,
                )
                &&& r is Err ==> r == Err::<(), StoreError>(StoreError::DuplicateEmail)
                    && final(self).users() == old(self).users()
            },
    ;

    /// Looks a user up by the email of the request.
    fn get_user(&self, request: &LoginRequest) -> (r: Result<User, StoreError>)
        ensures
            self.reliable() ==> match r {
                Ok(user) => self.users().contains_key(request.email@)
                    && self.users()[request.email@] == user@,
                Err(e) => e == StoreError::NotFound && !self.users().contains_key(request.email@),
            },
    ;
}

} // verus!
