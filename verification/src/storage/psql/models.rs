//! The rows of the tables `buddies`, `interactions` and `users`.
//!
//! A row holds identifiers and timestamps as text. Turning a row into a
//! record reads them; the first field that cannot be read decides the error.

use crate::clock::system_seconds;
use crate::decimal::{decimal_text, decimal_value, format_u64, parse_u64};
use crate::error::{ModelError, ServiceError};
use crate::ident::{format_id, id_text, parse_id, parsed_id};
use crate::types::{
    opt_date,
    opt_place,
    opt_text,
    Buddy,
    BuddyView,
    Datestamp,
    Interaction,
    InteractionView,
    Location,
    Timestamp,
    UpdateBuddyRequest,
    UpdateInteractionRequest,
    User,
    UserView,
};
use std::collections::HashSet;
use vstd::prelude::*;
use vstd::std_specs::hash::spec_hash_keys_iter;
use vstd::std_specs::iter::IteratorSpec;

verus! {

broadcast use vstd::std_specs::hash::group_hash_axioms;

/// A row of the table `buddies`.
pub struct DBBuddy {
    pub id: i32,
    pub uuid: String,
    pub name: String,
    pub notes: String,
    pub last_contacted: String,
    pub birthday: Option<String>,
    pub location: Option<String>,
    pub create_timestamp: String,
    pub last_update_timestamp: String,
    pub delete_timestamp: Option<String>,
    pub user_uuid: String,
}

/// A row to insert into the table `buddies`.
pub struct NewBuddy {
    pub uuid: String,
    pub name: String,
    pub notes: String,
    pub last_contacted: String,
    pub location: Option<String>,
    pub birthday: Option<String>,
    pub create_timestamp: String,
    pub last_update_timestamp: String,
    pub user_uuid: String,
}

/// The columns of a row of `buddies` to change; `None` leaves a column as it
/// is.
pub struct DBUpdateBuddy {
    pub last_update_timestamp: String,
    pub name: Option<String>,
    pub notes: Option<String>,
    pub last_contacted: Option<String>,
    pub location: Option<String>,
    pub birthday: Option<String>,
    pub delete_timestamp: Option<String>,
}

/// A row of the table `interactions`.
pub struct DBInteraction {
    pub id: i32,
    pub uuid: String,
    pub notes: String,
    pub participants: Vec<String>,
    pub date: Option<String>,
    pub create_timestamp: String,
    pub last_update_timestamp: String,
    pub delete_timestamp: Option<String>,
    pub user_uuid: String,
}

/// A row to insert into the table `interactions`.
pub struct NewInteraction {
    pub uuid: String,
    pub notes: String,
    pub participants: Vec<String>,
    pub date: Option<String>,
    pub create_timestamp: String,
    pub last_update_timestamp: String,
    pub user_uuid: String,
}

/// The columns of a row of `interactions` to change.
pub struct DBUpdateInteraction {
    pub last_update_timestamp: String,
    pub notes: Option<String>,
    pub date: Option<String>,
    pub participants: Option<Vec<String>>,
    pub delete_timestamp: Option<String>,
}

/// A row of the table `users`.
#[derive(Debug)]
pub struct DBUser {
    pub id: i32,
    pub email: String,
    pub password: String,
    pub user_uuid: String,
    pub create_timestamp: String,
}

/// A row to insert into the table `users`.
pub struct NewUser {
    pub email: String,
    pub password: String,
    pub user_id: String,
    pub create_timestamp: String,
}

/// The time that an optional column holds: none where the column is empty,
/// and no answer where it holds text that is no number.
pub open spec fn optional_time(column: Option<String>) -> Option<Option<u64>> {
    match column {
        None => Some(None),
        Some(text) => match decimal_value(text@) {
            Some(t) => Some(Some(t)),
            None => None,
        },
    }
}

/// The buddy that a row stands for.
pub open spec fn buddy_of_row(row: DBBuddy) -> Result<BuddyView, ModelError> {
    if parsed_id(row.uuid@) is None {
        Err(ModelError::InvalidId)
    } else if parsed_id(row.user_uuid@) is None {
        Err(ModelError::InvalidUserId)
    } else if optional_time(row.delete_timestamp) is None {
        Err(ModelError::InvalidDeleteTimestamp)
    } else if decimal_value(row.create_timestamp@) is None {
        Err(ModelError::InvalidCreateTimestamp)
    } else if decimal_value(row.last_update_timestamp@) is None {
        Err(ModelError::InvalidUpdateTimestamp)
    } else {
        Ok(
            BuddyView {
                id: parsed_id(row.uuid@).unwrap(),
                user_id: parsed_id(row.user_uuid@).unwrap(),
                name: row.name@,
                birthday: opt_text(row.birthday),
                notes: row.notes@,
                last_contacted: row.last_contacted@,
                create_timestamp: decimal_value(row.create_timestamp@).unwrap(),
                last_update_timestamp: decimal_value(row.last_update_timestamp@).unwrap(),
                delete_timestamp: optional_time(row.delete_timestamp).unwrap(),
                location: opt_text(row.location),
                cadence: None,
            },
        )
    }
}

/// The user that a row stands for. A row holds one timestamp; it counts for
/// the creation and for the last update.
pub open spec fn user_of_row(row: DBUser) -> Result<UserView, ModelError> {
    if parsed_id(row.user_uuid@) is None {
        Err(ModelError::InvalidUserId)
    } else if decimal_value(row.create_timestamp@) is None {
        Err(ModelError::InvalidCreateTimestamp)
    } else {
        Ok(
            UserView {
                id: parsed_id(row.user_uuid@).unwrap(),
                email: row.email@,
                password: row.password@,
                create_timestamp: decimal_value(row.create_timestamp@).unwrap(),
                last_update_timestamp: decimal_value(row.create_timestamp@).unwrap(),
            },
        )
    }
}

/// Reads a column that may be empty as a time.
fn read_optional_time(column: &Option<String>) -> (r: Option<Option<Timestamp>>)
    ensures
        r is Some <==> optional_time(*column) is Some,
        r matches Some(t) ==> optional_time(*column) == Some(crate::types::opt_time(t)),
{
    match column {
        None => Some(None),
        Some(text) => match parse_u64(text.as_str()) {
            Some(t) => Some(Some(Timestamp(t))),
            None => None,
        },
    }
}

/// Wraps a text that may be absent as a date.
fn date_from(column: Option<String>) -> (r: Option<Datestamp>)
    ensures
        opt_date(r) == opt_text(column),
{
    match column {
        Some(text) => Some(Datestamp(text)),
        None => None,
    }
}

/// Wraps a text that may be absent as a place.
fn place_from(column: Option<String>) -> (r: Option<Location>)
    ensures
        opt_place(r) == opt_text(column),
{
    match column {
        Some(text) => Some(Location(text)),
        None => None,
    }
}

/// Unwraps a date that may be absent.
fn text_of_date(date: Option<Datestamp>) -> (r: Option<String>)
    ensures
        opt_text(r) == opt_date(date),
{
    match date {
        Some(d) => Some(d.0),
        None => None,
    }
}

/// Unwraps a place that may be absent.
fn text_of_place(place: Option<Location>) -> (r: Option<String>)
    ensures
        opt_text(r) == opt_place(place),
{
    match place {
        Some(l) => Some(l.0),
        None => None,
    }
}

impl Buddy {
    /// Reads a buddy from a row.
    pub fn try_from(buddy: DBBuddy) -> (r: Result<Buddy, ModelError>)
        ensures
            match r {
                Ok(b) => buddy_of_row(buddy) == Ok::<BuddyView, ModelError>(b@),
                Err(e) => buddy_of_row(buddy) == Err::<BuddyView, ModelError>(e),
            },
    {
        let id = match parse_id(buddy.uuid.as_str()) {
            Some(id) => id,
            None => {
                return Err(ModelError::InvalidId);
            },
        };
        let user_id = match parse_id(buddy.user_uuid.as_str()) {
            Some(id) => id,
            None => {
                return Err(ModelError::InvalidUserId);
            },
        };
        let delete_timestamp = match read_optional_time(&buddy.delete_timestamp) {
            Some(t) => t,
            None => {
                return Err(ModelError::InvalidDeleteTimestamp);
            },
        };
        let create_timestamp = match parse_u64(buddy.create_timestamp.as_str()) {
            Some(t) => Timestamp(t),
            None => {
                return Err(ModelError::InvalidCreateTimestamp);
            },
        };
        let last_update_timestamp = match parse_u64(buddy.last_update_timestamp.as_str()) {
            Some(t) => Timestamp(t),
            None => {
                return Err(ModelError::InvalidUpdateTimestamp);
            },
        };
        Ok(
            Buddy {
                id,
                user_id,
                name: buddy.name,
                birthday: date_from(buddy.birthday),
                notes: buddy.notes,
                last_contacted: Datestamp(buddy.last_contacted),
                create_timestamp,
                last_update_timestamp,
                delete_timestamp,
                location: place_from(buddy.location),
                cadence: None,
            },
        )
    }
}

impl User {
    /// Reads a user from a row.
    pub fn try_from(user: DBUser) -> (r: Result<User, ModelError>)
        ensures
            match r {
                Ok(u) => user_of_row(user) == Ok::<UserView, ModelError>(u@),
                Err(e) => user_of_row(user) == Err::<UserView, ModelError>(e),
            },
    {
        let id = match parse_id(user.user_uuid.as_str()) {
            Some(id) => id,
            None => {
                return Err(ModelError::InvalidUserId);
            },
        };
        let created = match parse_u64(user.create_timestamp.as_str()) {
            Some(t) => Timestamp(t),
            None => {
                return Err(ModelError::InvalidCreateTimestamp);
            },
        };
        Ok(
            User {
                id,
                email: user.email,
                password: user.password,
                create_timestamp: created,
                last_update_timestamp: created,
            },
        )
    }
}

impl NewUser {
    /// The row to insert for a user.
    pub fn from_user(user: User) -> (r: NewUser)
        ensures
            r.email@ == user@.email,
            r.password@ == user@.password,
            r.user_id@ == id_text(user@.id),
            r.create_timestamp@ == decimal_text(user@.create_timestamp as nat),
    {
        NewUser {
            user_id: format_id(user.id),
            create_timestamp: format_u64(user.create_timestamp.0),
            email: user.email,
            password: user.password,
        }
    }
}

impl NewBuddy {
    /// The row to insert for a buddy.
    pub fn try_from(buddy: Buddy) -> (r: Result<NewBuddy, ModelError>)
        ensures
            r matches Ok(row) && {
                &&& row.uuid@ == id_text(buddy@.id)
                &&& row.name@ == buddy@.name
                &&& row.notes@ == buddy@.notes
                &&& row.last_contacted@ == buddy@.last_contacted
                &&& row.create_timestamp@ == decimal_text(buddy@.create_timestamp as nat)
                &&& row.last_update_timestamp@ == decimal_text(
                    buddy@.last_update_timestamp as nat,
                )
                &&& opt_text(row.birthday) == buddy@.birthday
                &&& opt_text(row.location) == buddy@.location
                &&& row.user_uuid@ == id_text(buddy@.user_id)
            },
    {
        Ok(
            NewBuddy {
                uuid: format_id(buddy.id),
                name: buddy.name,
                notes: buddy.notes,
                last_contacted: buddy.last_contacted.0,
                create_timestamp: format_u64(buddy.create_timestamp.0),
                last_update_timestamp: format_u64(buddy.last_update_timestamp.0),
                birthday: text_of_date(buddy.birthday),
                location: text_of_place(buddy.location),
                user_uuid: format_id(buddy.user_id),
            },
        )
    }
}

impl DBUpdateBuddy {
    /// The change that archives a buddy at the time `now`.
    pub fn archive_at(now: u64) -> (r: Self)
        ensures
            r.last_update_timestamp@ == decimal_text(now as nat),
            opt_text(r.delete_timestamp) == Some(decimal_text(now as nat)),
            r.name is None,
            r.notes is None,
            r.last_contacted is None,
            r.location is None,
            r.birthday is None,
    {
        Self {
            last_update_timestamp: format_u64(now),
            delete_timestamp: Some(format_u64(now)),
            name: None,
            notes: None,
            last_contacted: None,
            location: None,
            birthday: None,
        }
    }

    /// The change that archives a buddy now.
    pub fn archive() -> (r: Result<Self, ServiceError>)
        ensures
            match r {
                Ok(change) => {
                    &&& opt_text(change.delete_timestamp) == Some(change.last_update_timestamp@)
                    &&& exists|now: u64|
                        change.last_update_timestamp@ == #[trigger] decimal_text(now as nat)
                    &&& change.name is None
                    &&& change.notes is None
                    &&& change.last_contacted is None
                    &&& change.location is None
                    &&& change.birthday is None
                },
                Err(e) => e == ServiceError::ClockUnavailable,
            },
    {
        match system_seconds() {
            Some(now) => Ok(Self::archive_at(now)),
            None => Err(ServiceError::ClockUnavailable),
        }
    }

    /// The change that a request asks for, made at the time `now`.
    pub fn update_at(request: UpdateBuddyRequest, now: u64) -> (r: Self)
        ensures
            r.last_update_timestamp@ == decimal_text(now as nat),
            opt_text(r.name) == opt_text(request.name),
            opt_text(r.notes) == opt_text(request.notes),
            opt_text(r.birthday) == opt_date(request.birthday),
            opt_text(r.last_contacted) == opt_date(request.last_contacted),
            opt_text(r.location) == opt_place(request.location),
            r.delete_timestamp is None,
    {
        Self {
            name: request.name,
            notes: request.notes,
            birthday: text_of_date(request.birthday),
            last_contacted: text_of_date(request.last_contacted),
            location: text_of_place(request.location),
            last_update_timestamp: format_u64(now),
            delete_timestamp: None,
        }
    }

    /// The change that a request asks for, made now.
    pub fn update(request: UpdateBuddyRequest) -> (r: Result<Self, ServiceError>)
        ensures
            match r {
                Ok(change) => {
                    &&& exists|now: u64|
                        change.last_update_timestamp@ == #[trigger] decimal_text(now as nat)
                    &&& opt_text(change.name) == opt_text(request.name)
                    &&& opt_text(change.notes) == opt_text(request.notes)
                    &&& opt_text(change.birthday) == opt_date(request.birthday)
                    &&& opt_text(change.last_contacted) == opt_date(request.last_contacted)
                    &&& opt_text(change.location) == opt_place(request.location)
                    &&& change.delete_timestamp is None
                },
                Err(e) => e == ServiceError::ClockUnavailable,
            },
    {
        match system_seconds() {
            Some(now) => Ok(Self::update_at(request, now)),
            None => Err(ServiceError::ClockUnavailable),
        }
    }
}

/// The participants that the texts of a row stand for, read from the first on
/// and added to those in `seen`: a text that is no identifier is refused, and
/// so is an identifier that was seen before.
pub open spec fn read_participants(texts: Seq<String>, seen: Set<u128>) -> Result<
    Set<u128>,
    ModelError,
>
    decreases texts.len(),
{
    if texts.len() == 0 {
        Ok(seen)
    } else {
        match parsed_id(texts[0]@) {
            None => Err(ModelError::InvalidParticipant),
            Some(id) => if seen.contains(id) {
                Err(ModelError::DuplicateParticipant)
            } else {
                read_participants(texts.drop_first(), seen.insert(id))
            },
        }
    }
}

/// The interaction that a row stands for.
pub open spec fn interaction_of_row(row: DBInteraction) -> Result<InteractionView, ModelError> {
    if parsed_id(row.uuid@) is None {
        Err(ModelError::InvalidId)
    } else if parsed_id(row.user_uuid@) is None {
        Err(ModelError::InvalidUserId)
    } else if optional_time(row.delete_timestamp) is None {
        Err(ModelError::InvalidDeleteTimestamp)
    } else {
        match read_participants(row.participants@, Set::empty()) {
            Err(e) => Err(e),
            Ok(participants) => if decimal_value(row.create_timestamp@) is None {
                Err(ModelError::InvalidCreateTimestamp)
            } else if decimal_value(row.last_update_timestamp@) is None {
                Err(ModelError::InvalidUpdateTimestamp)
            } else {
                Ok(
                    InteractionView {
                        id: parsed_id(row.uuid@).unwrap(),
                        notes: row.notes@,
                        participants,
                        date: opt_text(row.date),
                        create_timestamp: decimal_value(row.create_timestamp@).unwrap(),
                        last_update_timestamp: decimal_value(row.last_update_timestamp@).unwrap(),
                        delete_timestamp: optional_time(row.delete_timestamp).unwrap(),
                        user_id: parsed_id(row.user_uuid@).unwrap(),
                    },
                )
            },
        }
    }
}

/// True when the texts are the identifiers of the set, each written once, in
/// some order.
pub open spec fn lists_ids(texts: Seq<String>, ids: Set<u128>) -> bool {
    exists|order: Seq<u128>| #[trigger]
        writes_in_order(texts, order) && order.no_duplicates() && order.to_set() == ids
}

/// True when the texts are the identifiers of `order`, place by place.
pub open spec fn writes_in_order(texts: Seq<String>, order: Seq<u128>) -> bool {
    &&& texts.len() == order.len()
    &&& forall|i: int| 0 <= i < texts.len() ==> (#[trigger] texts[i])@ == id_text(order[i])
}

/// Reads the participants of a row.
pub fn parse_participants(texts: &Vec<String>) -> (r: Result<HashSet<u128>, ModelError>)
    ensures
        match r {
            Ok(ids) => read_participants(texts@, Set::empty()) == Ok::<Set<u128>, ModelError>(
                ids@,
            ),
            Err(e) => read_participants(texts@, Set::empty()) == Err::<Set<u128>, ModelError>(e),
        },
{
    let mut participants: HashSet<u128> = HashSet::new();
    let mut i: usize = 0;
    assert(texts@.skip(0) =~= texts@);
    while i < texts.len()
        invariant
            0 <= i <= texts@.len(),
            read_participants(texts@, Set::empty()) == read_participants(
                texts@.skip(i as int),
                participants@,
            ),
        decreases texts@.len() - i,
    {
        assert(texts@.skip(i as int)[0] == texts@[i as int]);
        assert(texts@.skip(i as int).drop_first() =~= texts@.skip(i + 1));
        let p_uuid = match parse_id(texts[i].as_str()) {
            Some(id) => id,
            None => {
                return Err(ModelError::InvalidParticipant);
            },
        };
        if participants.contains(&p_uuid) {
            return Err(ModelError::DuplicateParticipant);
        }
        participants.insert(p_uuid);
        i += 1;
    }
    Ok(participants)
}

/// Writes the participants of an interaction, in the order in which the set
/// hands them out.
pub fn write_participants(ids: &HashSet<u128>) -> (r: Vec<String>)
    ensures
        lists_ids(r@, ids@),
{
    let mut texts: Vec<String> = Vec::new();
    let ghost handed_out = spec_hash_keys_iter(ids).remaining();
    let ghost whole: Seq<u128> = handed_out.unref();
    let ghost mut order: Seq<u128> = Seq::empty();
    for p in it: ids.iter()
        invariant
            it.seq() == handed_out,
            whole == handed_out.unref(),
            order == whole.take(it.index()),
            writes_in_order(texts@, order),
    {
        let text = format_id(*p);
        proof {
            assert(whole.take(it.index() + 1) =~= order.push(*p));
            order = order.push(*p);
        }
        texts.push(text);
    }
    proof {
        assert(order =~= whole);
        assert forall|i: int, j: int|
            0 <= i < order.len() && 0 <= j < order.len() && i != j implies order[i]
            != order[j] by {
            assert(handed_out[i] != handed_out[j]);
        }
        assert(writes_in_order(texts@, order) && order.no_duplicates() && order.to_set() == ids@);
    }
    texts
}

impl Interaction {
    /// Reads an interaction from a row.
    pub fn try_from(interaction: DBInteraction) -> (r: Result<Interaction, ModelError>)
        ensures
            match r {
                Ok(i) => interaction_of_row(interaction) == Ok::<InteractionView, ModelError>(i@),
                Err(e) => interaction_of_row(interaction) == Err::<InteractionView, ModelError>(e),
            },
    {
        let id = match parse_id(interaction.uuid.as_str()) {
            Some(id) => id,
            None => {
                return Err(ModelError::InvalidId);
            },
        };
        let user_id = match parse_id(interaction.user_uuid.as_str()) {
            Some(id) => id,
            None => {
                return Err(ModelError::InvalidUserId);
            },
        };
        let delete_timestamp = match read_optional_time(&interaction.delete_timestamp) {
            Some(t) => t,
            None => {
                return Err(ModelError::InvalidDeleteTimestamp);
            },
        };
        let participants = parse_participants(&interaction.participants)?;
        let create_timestamp = match parse_u64(interaction.create_timestamp.as_str()) {
            Some(t) => Timestamp(t),
            None => {
                return Err(ModelError::InvalidCreateTimestamp);
            },
        };
        let last_update_timestamp = match parse_u64(interaction.last_update_timestamp.as_str()) {
            Some(t) => Timestamp(t),
            None => {
                return Err(ModelError::InvalidUpdateTimestamp);
            },
        };
        Ok(
            Interaction {
                id,
                notes: interaction.notes,
                participants,
                date: date_from(interaction.date),
                create_timestamp,
                last_update_timestamp,
                delete_timestamp,
                user_id,
            },
        )
    }
}

impl NewInteraction {
    /// The row to insert for an interaction.
    pub fn try_from(interaction: Interaction) -> (r: Result<NewInteraction, ModelError>)
        ensures
            r matches Ok(row) && {
                &&& row.uuid@ == id_text(interaction@.id)
                &&& row.notes@ == interaction@.notes
                &&& lists_ids(row.participants@, interaction@.participants)
                &&& opt_text(row.date) == interaction@.date
                &&& row.create_timestamp@ == decimal_text(interaction@.create_timestamp as nat)
                &&& row.last_update_timestamp@ == decimal_text(
                    interaction@.last_update_timestamp as nat,
                )
                &&& row.user_uuid@ == id_text(interaction@.user_id)
            },
    {
        let participants = write_participants(&interaction.participants);
        Ok(
            NewInteraction {
                uuid: format_id(interaction.id),
                notes: interaction.notes,
                participants,
                date: text_of_date(interaction.date),
                create_timestamp: format_u64(interaction.create_timestamp.0),
                last_update_timestamp: format_u64(interaction.last_update_timestamp.0),
                user_uuid: format_id(interaction.user_id),
            },
        )
    }
}

/// True when a column of participants asks for what a request asks for:
/// nothing, or the identifiers of the request in some order.
pub open spec fn asks_for_participants(column: Option<Vec<String>>, ids: Option<HashSet<u128>>) -> bool {
    match ids {
        Some(ids) => column matches Some(texts) && lists_ids(texts@, ids@),
        None => column is None,
    }
}

impl DBUpdateInteraction {
    /// The change that archives an interaction at the time `now`.
    pub fn archive_at(now: u64) -> (r: Self)
        ensures
            r.last_update_timestamp@ == decimal_text(now as nat),
            opt_text(r.delete_timestamp) == Some(decimal_text(now as nat)),
            r.notes is None,
            r.date is None,
            r.participants is None,
    {
        Self {
            last_update_timestamp: format_u64(now),
            delete_timestamp: Some(format_u64(now)),
            notes: None,
            date: None,
            participants: None,
        }
    }

    /// The change that archives an interaction now.
    pub fn archive() -> (r: Result<Self, ServiceError>)
        ensures
            match r {
                Ok(change) => {
                    &&& opt_text(change.delete_timestamp) == Some(change.last_update_timestamp@)
                    &&& exists|now: u64|
                        change.last_update_timestamp@ == #[trigger] decimal_text(now as nat)
                    &&& change.notes is None
                    &&& change.date is None
                    &&& change.participants is None
                },
                Err(e) => e == ServiceError::ClockUnavailable,
            },
    {
        match system_seconds() {
            Some(now) => Ok(Self::archive_at(now)),
            None => Err(ServiceError::ClockUnavailable),
        }
    }

    /// The change that a request asks for, made at the time `now`.
    pub fn update_at(request: UpdateInteractionRequest, now: u64) -> (r: Self)
        ensures
            r.last_update_timestamp@ == decimal_text(now as nat),
            opt_text(r.notes) == opt_text(request.notes),
            opt_text(r.date) == opt_date(request.date),
            asks_for_participants(r.participants, request.participants),
            r.delete_timestamp is None,
    {
        let participants = match &request.participants {
            Some(participant_uuids) => Some(write_participants(participant_uuids)),
            None => None,
        };
        Self {
            notes: request.notes,
            date: text_of_date(request.date),
            participants,
            last_update_timestamp: format_u64(now),
            delete_timestamp: None,
        }
    }

    /// The change that a request asks for, made now.
    pub fn update(request: UpdateInteractionRequest) -> (r: Result<Self, ServiceError>)
        ensures
            match r {
                Ok(change) => {
                    &&& exists|now: u64|
                        change.last_update_timestamp@ == #[trigger] decimal_text(now as nat)
                    &&& opt_text(change.notes) == opt_text(request.notes)
                    &&& opt_text(change.date) == opt_date(request.date)
                    &&& asks_for_participants(change.participants, request.participants)
                    &&& change.delete_timestamp is None
                },
                Err(e) => e == ServiceError::ClockUnavailable,
            },
    {
        match system_seconds() {
            Some(now) => Ok(Self::update_at(request, now)),
            None => Err(ServiceError::ClockUnavailable),
        }
    }
}

} // verus!
