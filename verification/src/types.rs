//! The records the service keeps and the messages it exchanges.
//!
//! A record with text or a collection inside has a view: the same record with
//! each `String` as a `Seq<char>` and each set of identifiers as a `Set`.
//! Contracts speak of views.

use std::collections::{HashMap, HashSet};
use std::time::Duration;
use vstd::prelude::*;
use vstd::std_specs::convert::FromSpecImpl;

verus! {

/// Where a buddy lives.
#[derive(Debug, PartialEq, Eq, Hash)]
pub struct Location(pub String);

/// Seconds since the Unix epoch.
#[derive(Debug, Clone, Copy, PartialEq, Eq, Structural, Hash)]
pub struct Timestamp(pub u64);

/// A calendar date, written `YYYY-MM-DD`.
#[derive(Debug, PartialEq, Eq, Hash)]
pub struct Datestamp(pub String);

impl View for Location {
    type V = Seq<char>;

    open spec fn view(&self) -> Seq<char> {
        self.0@
    }
}

impl View for Datestamp {
    type V = Seq<char>;

    open spec fn view(&self) -> Seq<char> {
        self.0@
    }
}

impl Clone for Location {
    fn clone(&self) -> (r: Self)
        ensures
            r@ == self@,
    {
        Location(self.0.clone())
    }
}

impl Clone for Datestamp {
    fn clone(&self) -> (r: Self)
        ensures
            r@ == self@,
    {
        Datestamp(self.0.clone())
    }
}

/// The view of a text that may be absent.
pub open spec fn opt_text(o: Option<String>) -> Option<Seq<char>> {
    match o {
        Some(s) => Some(s@),
        None => None,
    }
}

/// The view of a date that may be absent.
pub open spec fn opt_date(o: Option<Datestamp>) -> Option<Seq<char>> {
    match o {
        Some(d) => Some(d@),
        None => None,
    }
}

/// The view of a place that may be absent.
pub open spec fn opt_place(o: Option<Location>) -> Option<Seq<char>> {
    match o {
        Some(l) => Some(l@),
        None => None,
    }
}

/// The seconds of a timestamp that may be absent.
pub open spec fn opt_time(o: Option<Timestamp>) -> Option<u64> {
    match o {
        Some(t) => Some(t.0),
        None => None,
    }
}

fn clone_date(o: &Option<Datestamp>) -> (r: Option<Datestamp>)
    ensures
        opt_date(r) == opt_date(*o),
{
    match o {
        Some(d) => Some(d.clone()),
        None => None,
    }
}

fn clone_place(o: &Option<Location>) -> (r: Option<Location>)
    ensures
        opt_place(r) == opt_place(*o),
{
    match o {
        Some(l) => Some(l.clone()),
        None => None,
    }
}

/// `HashSet::clone` of std. Trusted: the copy holds the same identifiers.
#[verifier::external_body]
pub(crate) fn clone_ids(ids: &HashSet<u128>) -> (r: HashSet<u128>)
    ensures
        r@ == ids@,
{
    ids.clone()
}

/// Someone the user wants to keep in touch with.
#[derive(Debug)]
pub struct Buddy {
    /// A unique id for your buddy
    pub id: u128,
    /// The human readable name of your buddy
    pub name: String,
    /// The birthday of your buddy
    pub birthday: Option<Datestamp>,
    /// The frequency with which you'd like to talk to your buddy
    pub cadence: Option<Duration>,
    /// Any notes you have about your buddy
    pub notes: String,
    /// Where your buddy is
    pub location: Option<Location>,
    /// The last time you contacted your buddy
    pub last_contacted: Datestamp,
    /// The time in which this buddy was registered
    pub create_timestamp: Timestamp,
    /// The last time this record was updated
    pub last_update_timestamp: Timestamp,
    /// The time in which this buddy was archived
    pub delete_timestamp: Option<Timestamp>,
    /// The id of whoever's buddy this is
    pub user_id: u128,
}

/// A buddy as plain values.
pub struct BuddyView {
    pub id: u128,
    pub name: Seq<char>,
    pub birthday: Option<Seq<char>>,
    pub cadence: Option<Duration>,
    pub notes: Seq<char>,
    pub location: Option<Seq<char>>,
    pub last_contacted: Seq<char>,
    pub create_timestamp: u64,
    pub last_update_timestamp: u64,
    pub delete_timestamp: Option<u64>,
    pub user_id: u128,
}

impl View for Buddy {
    type V = BuddyView;

    open spec fn view(&self) -> BuddyView {
        BuddyView {
            id: self.id,
            name: self.name@,
            birthday: opt_date(self.birthday),
            cadence: self.cadence,
            notes: self.notes@,
            location: opt_place(self.location),
            last_contacted: self.last_contacted@,
            create_timestamp: self.create_timestamp.0,
            last_update_timestamp: self.last_update_timestamp.0,
            delete_timestamp: opt_time(self.delete_timestamp),
            user_id: self.user_id,
        }
    }
}

impl Clone for Buddy {
    fn clone(&self) -> (r: Self)
        ensures
            r@ == self@,
    {
        Buddy {
            id: self.id,
            name: self.name.clone(),
            birthday: clone_date(&self.birthday),
            cadence: self.cadence,
            notes: self.notes.clone(),
            location: clone_place(&self.location),
            last_contacted: self.last_contacted.clone(),
            create_timestamp: self.create_timestamp,
            last_update_timestamp: self.last_update_timestamp,
            delete_timestamp: self.delete_timestamp,
            user_id: self.user_id,
        }
    }
}

/// A meeting, a call, a letter: something that happened with buddies.
#[derive(Debug)]
pub struct Interaction {
    pub id: u128,
    /// General notes about the interaction
    pub notes: String,
    /// The participants involved
    pub participants: HashSet<u128>,
    /// The date in which this happened
    pub date: Option<Datestamp>,
    /// The time in which this interaction was registered
    pub create_timestamp: Timestamp,
    /// The last time this record was updated
    pub last_update_timestamp: Timestamp,
    /// The time in which this interaction was archived
    pub delete_timestamp: Option<Timestamp>,
    pub user_id: u128,
}

/// An interaction as plain values.
pub struct InteractionView {
    pub id: u128,
    pub notes: Seq<char>,
    pub participants: Set<u128>,
    pub date: Option<Seq<char>>,
    pub create_timestamp: u64,
    pub last_update_timestamp: u64,
    pub delete_timestamp: Option<u64>,
    pub user_id: u128,
}

impl View for Interaction {
    type V = InteractionView;

    open spec fn view(&self) -> InteractionView {
        InteractionView {
            id: self.id,
            notes: self.notes@,
            participants: self.participants@,
            date: opt_date(self.date),
            create_timestamp: self.create_timestamp.0,
            last_update_timestamp: self.last_update_timestamp.0,
            delete_timestamp: opt_time(self.delete_timestamp),
            user_id: self.user_id,
        }
    }
}

impl Clone for Interaction {
    fn clone(&self) -> (r: Self)
        ensures
            r@ == self@,
    {
        Interaction {
            id: self.id,
            notes: self.notes.clone(),
            participants: clone_ids(&self.participants),
            date: clone_date(&self.date),
            create_timestamp: self.create_timestamp,
            last_update_timestamp: self.last_update_timestamp,
            delete_timestamp: self.delete_timestamp,
            user_id: self.user_id,
        }
    }
}

#[derive(Debug, Clone, Copy)]
pub struct ArchiveBuddyRequest {
    pub id: u128,
    pub user_id: u128,
}

#[derive(Debug, Clone, Copy)]
pub struct ArchiveInteractionRequest {
    pub id: u128,
    pub user_id: u128,
}

#[derive(Debug)]
pub struct CreateBuddyRequest {
    /// The id of the user who is asking to register a buddy
    pub user_id: u128,
    /// The human readable name of your buddy
    pub name: String,
    /// The birthday of your buddy
    pub birthday: Option<Datestamp>,
    /// The frequency with which you'd like to talk to your buddy
    pub cadence: Option<Duration>,
    /// Any notes you have about your buddy
    pub notes: String,
    /// Where your buddy is
    pub location: Option<Location>,
}

#[derive(Debug)]
pub struct CreateInteractionRequest {
    /// The id of the user who is asking to create an interaction
    pub user_id: u128,
    /// General notes about the interaction
    pub notes: String,
    /// The participants involved
    pub participants: HashSet<u128>,
    /// The date in which this happened
    pub date: Option<Datestamp>,
}

#[derive(Debug, Clone, Copy)]
pub struct GetUserDataRequest {
    pub user_id: u128,
}

#[derive(Debug)]
pub struct UpdateBuddyRequest {
    pub user_id: u128,
    pub buddy_id: u128,
    pub name: Option<String>,
    pub notes: Option<String>,
    pub last_contacted: Option<Datestamp>,
    pub location: Option<Location>,
    pub birthday: Option<Datestamp>,
}

#[derive(Debug)]
pub struct UpdateInteractionRequest {
    pub user_id: u128,
    pub interaction_id: u128,
    pub notes: Option<String>,
    pub date: Option<Datestamp>,
    pub participants: Option<HashSet<u128>>,
}

#[derive(Debug, Clone, Copy)]
pub struct ArchiveBuddyResponse {}

#[derive(Debug, Clone, Copy)]
pub struct ArchiveInteractionResponse {}

#[derive(Debug)]
pub struct CreateBuddyResponse {
    /// The buddy you just created
    pub buddy: Buddy,
}

#[derive(Debug)]
pub struct CreateInteractionResponse {
    pub interaction: Interaction,
}

#[derive(Debug)]
pub struct GetUserDataResponse {
    /// Map from buddy_id to buddy object
    pub buddies: HashMap<u128, Buddy>,
    pub interactions: HashMap<u128, Interaction>,
}

#[derive(Debug)]
pub struct LoginRequest {
    pub email: String,
    pub password: String,
}

#[derive(Debug)]
pub struct SignUpRequest {
    pub email: String,
    pub password: String,
}

/// A registered user. `password` holds the digest of the password, never the
/// password itself, and never leaves the service.
#[derive(Debug, PartialEq, Eq)]
pub struct User {
    pub id: u128,
    pub email: String,
    pub password: String,
    /// The time in which this User was registered
    pub create_timestamp: Timestamp,
    /// The last time this record was updated
    pub last_update_timestamp: Timestamp,
}

/// A user as plain values.
pub struct UserView {
    pub id: u128,
    pub email: Seq<char>,
    pub password: Seq<char>,
    pub create_timestamp: u64,
    pub last_update_timestamp: u64,
}

impl View for User {
    type V = UserView;

    open spec fn view(&self) -> UserView {
        UserView {
            id: self.id,
            email: self.email@,
            password: self.password@,
            create_timestamp: self.create_timestamp.0,
            last_update_timestamp: self.last_update_timestamp.0,
        }
    }
}

impl Clone for User {
    fn clone(&self) -> (r: Self)
        ensures
            r@ == self@,
    {
        User {
            id: self.id,
            email: self.email.clone(),
            password: self.password.clone(),
            create_timestamp: self.create_timestamp,
            last_update_timestamp: self.last_update_timestamp,
        }
    }
}

/// What of a user may be shown: everything but the password digest.
#[derive(Debug, PartialEq, Eq)]
pub struct PublicUser {
    pub id: u128,
    pub email: String,
    /// The time in which this User was registered
    pub create_timestamp: Timestamp,
    /// The last time this record was updated
    pub last_update_timestamp: Timestamp,
}

/// A public user as plain values.
pub struct PublicUserView {
    pub id: u128,
    pub email: Seq<char>,
    pub create_timestamp: u64,
    pub last_update_timestamp: u64,
}

impl View for PublicUser {
    type V = PublicUserView;

    open spec fn view(&self) -> PublicUserView {
        PublicUserView {
            id: self.id,
            email: self.email@,
            create_timestamp: self.create_timestamp.0,
            last_update_timestamp: self.last_update_timestamp.0,
        }
    }
}

impl Clone for PublicUser {
    fn clone(&self) -> (r: Self)
        ensures
            r@ == self@,
    {
        PublicUser {
            id: self.id,
            email: self.email.clone(),
            create_timestamp: self.create_timestamp,
            last_update_timestamp: self.last_update_timestamp,
        }
    }
}

/// The public part of a user.
pub open spec fn public_part(user: UserView) -> PublicUserView {
    PublicUserView {
        id: user.id,
        email: user.email,
        create_timestamp: user.create_timestamp,
        last_update_timestamp: user.last_update_timestamp,
    }
}

impl From<User> for PublicUser {
    fn from(item: User) -> (r: PublicUser)
        ensures
            r@ == public_part(item@),
    {
        PublicUser {
            id: item.id,
            email: item.email,
            last_update_timestamp: item.last_update_timestamp,
            create_timestamp: item.create_timestamp,
        }
    }
}

impl FromSpecImpl<User> for PublicUser {
    open spec fn obeys_from_spec() -> bool {
        true
    }

    open spec fn from_spec(item: User) -> PublicUser {
        PublicUser {
            id: item.id,
            email: item.email,
            last_update_timestamp: item.last_update_timestamp,
            create_timestamp: item.create_timestamp,
        }
    }
}

#[derive(Debug)]
pub struct CreateUserRequest {
    pub user: User,
}

#[derive(Debug)]
pub struct LoginResponse {
    /// User metadata associated with the login request
    pub user: PublicUser,
    /// Token to be used for authenticated endpoints
    pub jwt: String,
}

#[derive(Debug)]
pub struct SignUpResponse {
    pub user: PublicUser,
}

#[derive(Debug, Clone, Copy)]
pub struct AuthenticationResponse {
    pub user_uuid: u128,
}

#[derive(Debug)]
pub struct AuthenticationRequest {
    pub json_web_token: String,
}

#[derive(Debug, Clone, Copy)]
pub struct UpdateBuddyResponse {}

#[derive(Debug, Clone, Copy)]
pub struct UpdateInteractionResponse {}

} // verus!
