//! The services: the identity service, which signs users up, logs them in
//! and tells who bears a token, and the service for buddies and interactions.

use crate::clock::{date_of, date_of_timestamp, system_seconds};
use crate::credential::{digest_accepts, hash_password, password_len, verify_password, MAX_PASSWORD_BYTES};
use crate::error::{AuthError, ServiceError, StoreError};
use crate::ident::random_id;
use crate::storage::traits::{
    buddies_of,
    buddy_archived,
    buddy_updated,
    buddy_views,
    interaction_archived,
    interaction_updated,
    interaction_views,
    interactions_of,
    AuthStore,
    BuddiesStore,
};
pub use crate::token::Claims;
use crate::token::{
    authenticated,
    authenticated_sometime,
    can_issue,
    cannot_always_issue,
    expiry,
    has_pem_begin,
    issue_token,
    issued,
    issued_to,
    keys_agree,
    lemma_issued_token_names_its_user,
    lemma_rejection_is_invalid_token,
    rejected_sometime,
    unauthenticated_sometime,
    verified_claims,
    verified_sometime,
    verify_token,
    ClaimsView,
};
use crate::types::{
    opt_date,
    opt_place,
    public_part,
    ArchiveBuddyRequest,
    ArchiveBuddyResponse,
    ArchiveInteractionRequest,
    ArchiveInteractionResponse,
    AuthenticationRequest,
    AuthenticationResponse,
    Buddy,
    BuddyView,
    CreateBuddyRequest,
    CreateBuddyResponse,
    CreateInteractionRequest,
    CreateInteractionResponse,
    CreateUserRequest,
    Datestamp,
    GetUserDataRequest,
    GetUserDataResponse,
    Interaction,
    InteractionView,
    LoginRequest,
    LoginResponse,
    PublicUser,
    SignUpRequest,
    SignUpResponse,
    Timestamp,
    UpdateBuddyRequest,
    UpdateBuddyResponse,
    UpdateInteractionRequest,
    UpdateInteractionResponse,
    User,
    UserView,
};
use vstd::prelude::*;

verus! {

/// What the identity service offers.
pub trait AuthService: Sized {
    fn login(&self, request: LoginRequest) -> Result<LoginResponse, AuthError>;

    fn sign_up(&mut self, request: SignUpRequest) -> Result<SignUpResponse, AuthError>;

    fn authenticate(&self, request: AuthenticationRequest) -> Result<
        AuthenticationResponse,
        AuthError,
    >;
}

/// What the service for buddies and interactions offers.
pub trait BuddiesService: Sized {
    // Buddy CRUD
    fn create_buddy(&mut self, request: CreateBuddyRequest) -> Result<
        CreateBuddyResponse,
        ServiceError,
    >;

    fn update_buddy(&mut self, request: UpdateBuddyRequest) -> Result<
        UpdateBuddyResponse,
        ServiceError,
    >;

    fn archive_buddy(&mut self, request: ArchiveBuddyRequest) -> Result<
        ArchiveBuddyResponse,
        ServiceError,
    >;

    fn get_user_data(&self, request: GetUserDataRequest) -> Result<
        GetUserDataResponse,
        ServiceError,
    >;

    // Interaction CRUD
    fn create_interaction(&mut self, request: CreateInteractionRequest) -> Result<
        CreateInteractionResponse,
        ServiceError,
    >;

    fn update_interaction(&mut self, request: UpdateInteractionRequest) -> Result<
        UpdateInteractionResponse,
        ServiceError,
    >;

    fn archive_interaction(&mut self, request: ArchiveInteractionRequest) -> Result<
        ArchiveInteractionResponse,
        ServiceError,
    >;
}

/// The user that sign-up makes of an email, a password digest, a fresh
/// identifier and the time.
pub open spec fn new_user(id: u128, email: Seq<char>, digest: Seq<char>, now: u64) -> UserView {
    UserView { id, email, password: digest, create_timestamp: now, last_update_timestamp: now }
}

/// True when the store knows a user with this email whose digest accepts
/// this password.
pub open spec fn knows(users: Map<Seq<char>, UserView>, email: Seq<char>, password: Seq<char>) -> bool {
    users.contains_key(email) && digest_accepts(password, users[email].password)
}

/// What sign-up answers to the outcome of looking the email up: an email
/// that is found is taken, one that is not found is free, and a store that
/// fails is unavailable.
pub open spec fn registration_verdict(found: Result<User, StoreError>) -> Result<(), AuthError> {
    match found {
        Ok(_) => Err(AuthError::DuplicateEmail),
        Err(StoreError::NotFound) => Ok(()),
        Err(_) => Err(AuthError::StoreUnavailable),
    }
}

/// What login answers to the outcome of looking the email up and a password:
/// the user, where one is found and the password fits its digest. A user that
/// is not found and a password that does not fit are the same error.
pub open spec fn credentials_verdict(found: Result<User, StoreError>, password: Seq<char>) -> Result<
    UserView,
    AuthError,
> {
    match found {
        Ok(user) => if digest_accepts(password, user@.password) {
            Ok(user@)
        } else {
            Err(AuthError::InvalidCredentials)
        },
        Err(StoreError::NotFound) => Err(AuthError::InvalidCredentials),
        Err(_) => Err(AuthError::StoreUnavailable),
    }
}

/// Decides whether sign-up may go on, from the outcome of looking the email
/// up.
pub fn check_unregistered(found: &Result<User, StoreError>) -> (r: Result<(), AuthError>)
    ensures
        r == registration_verdict(*found),
{
    match found {
        Ok(_) => Err(AuthError::DuplicateEmail),
        Err(StoreError::NotFound) => Ok(()),
        Err(_) => Err(AuthError::StoreUnavailable),
    }
}

/// Decides whether login may go on, from the outcome of looking the email up
/// and the password that was given.
pub fn check_credentials(found: Result<User, StoreError>, password: &str) -> (r: Result<
    User,
    AuthError,
>)
    ensures
        match r {
            Ok(user) => credentials_verdict(found, password@) == Ok::<UserView, AuthError>(user@),
            Err(e) => credentials_verdict(found, password@) == Err::<UserView, AuthError>(e),
        },
{
    match found {
        Ok(user) => {
            if verify_password(password, user.password.as_str()) {
                Ok(user)
            } else {
                Err(AuthError::InvalidCredentials)
            }
        },
        Err(StoreError::NotFound) => Err(AuthError::InvalidCredentials),
        Err(_) => Err(AuthError::StoreUnavailable),
    }
}

/// A wrong password for a known email and any password for an unknown email
/// fail alike: the error says nothing of which it was.
pub proof fn lemma_login_failures_are_alike(
    user: User,
    wrong_password: Seq<char>,
    any_password: Seq<char>,
)
    requires
        !digest_accepts(wrong_password, user@.password),
    ensures
        credentials_verdict(Ok(user), wrong_password) == credentials_verdict(
            Err(StoreError::NotFound),
            any_password,
        ),
        credentials_verdict(Ok(user), wrong_password) == Err::<UserView, AuthError>(
            AuthError::InvalidCredentials,
        ),
{
}

/// Sign-up with an email that the store finds is refused as a duplicate.
pub proof fn lemma_found_email_is_duplicate(user: User)
    ensures
        registration_verdict(Ok(user)) == Err::<(), AuthError>(AuthError::DuplicateEmail),
{
}

/// The identity service: a store of users and the key pair that tokens are
/// signed and verified with. The keys are PEM text, held as bytes.
#[derive(Debug)]
pub struct AuthHandler<S> {
    pub storage: S,
    pub secret: Vec<u8>,
    pub public: Vec<u8>,
}

impl<S: AuthStore> AuthHandler<S> {
    pub fn new(storage: S, secret: Vec<u8>, public: Vec<u8>) -> (r: Result<
        AuthHandler<S>,
        AuthError,
    >)
        ensures
            r matches Ok(handler) && handler.storage == storage && handler.secret == secret
                && handler.public == public,
    {
        Ok(AuthHandler { storage, secret, public })
    }

    /// True when the public key confirms what the private key signs.
    pub open spec fn keys_agree(&self) -> bool {
        keys_agree(self.secret@, self.public@)
    }

    /// Hashes a password for storage.
    pub fn hash(&self, password: String) -> (r: Result<String, AuthError>)
        ensures
            password_len(password@) > MAX_PASSWORD_BYTES ==> r is Err,
            r matches Ok(digest) ==> digest_accepts(password@, digest@),
            r matches Err(e) ==> e == AuthError::HashingFailed,
    {
        hash_password(password.as_str())
    }

    /// Issues a token for `user_id` at the time `now`: exactly when the
    /// expiry fits in 64 bits and the private key signs the claim, which it
    /// does where the keys agree. Where the keys agree the token names that
    /// user whenever it is verified before it expires.
    pub fn create_jwt_at(&self, user_id: u128, now: u64) -> (r: Result<String, AuthError>)
        ensures
            r is Ok <==> can_issue(self.secret@, user_id, now),
            self.keys_agree() && expiry(now) <= u64::MAX ==> r is Ok,
            !has_pem_begin(self.secret@) ==> r is Err,
            r matches Ok(token) ==> issued(self.secret@, user_id, now, token@) && token@.len()
                > 0,
            r matches Ok(token) ==> (self.keys_agree() ==> forall|later: u64|
                later <= expiry(now) ==> #[trigger] authenticated(self.public@, token@, later)
                    == Ok::<u128, AuthError>(user_id)),
            r matches Err(e) ==> e == AuthError::TokenIssueFailed,
    {
        let r = issue_token(self.secret.as_slice(), user_id, now);
        proof {
            if let Ok(token) = &r {
                if self.keys_agree() {
                    assert forall|later: u64| later <= expiry(now) implies #[trigger] authenticated(
                        self.public@,
                        token@,
                        later,
                    ) == Ok::<u128, AuthError>(user_id) by {
                        lemma_issued_token_names_its_user(
                            self.secret@,
                            self.public@,
                            user_id,
                            now,
                            later,
                            token@,
                        );
                    }
                }
            }
        }
        r
    }

    /// Issues a token for `user_id`, good for 72 hours from now. Where the
    /// keys agree a token is issued whenever the clock gives a time; a
    /// private key that is no PEM text issues none.
    pub fn create_jwt(&self, user_id: u128) -> (r: Result<String, AuthError>)
        ensures
            r matches Ok(token) ==> issued_to(self.secret@, user_id, token@) && token@.len() > 0,
            r matches Err(e) ==> e == AuthError::ClockUnavailable || (e
                == AuthError::TokenIssueFailed && cannot_always_issue(self.secret@, user_id)),
            self.keys_agree() ==> r is Ok || r == Err::<String, AuthError>(
                AuthError::ClockUnavailable,
            ),
            !has_pem_begin(self.secret@) ==> r is Err,
    {
        match system_seconds() {
            Some(now) => {
                let r = self.create_jwt_at(user_id, now);
                proof {
                    if r is Err {
                        assert(!can_issue(self.secret@, user_id, now));
                    }
                }
                r
            },
            None => Err(AuthError::ClockUnavailable),
        }
    }

    /// Verifies a token at the time `now` and gives its claims.
    pub fn decode_token_at(&self, token: &str, now: u64) -> (r: Result<Claims, AuthError>)
        ensures
            match r {
                Ok(claims) => verified_claims(self.public@, token@, now) == Ok::<
                    ClaimsView,
                    AuthError,
                >(claims@),
                Err(e) => verified_claims(self.public@, token@, now) == Err::<
                    ClaimsView,
                    AuthError,
                >(e),
            },
    {
        verify_token(self.public.as_slice(), token, now)
    }

    /// Verifies a token against the clock and gives its claims. The token is
    /// refused as invalid only if it is rejected at the time the clock gave.
    pub fn decode_token(&self, token: &str) -> (r: Result<Claims, AuthError>)
        ensures
            r matches Ok(claims) ==> verified_sometime(self.public@, token@, claims@),
            r matches Err(e) ==> e == AuthError::ClockUnavailable || (e
                == AuthError::InvalidToken && rejected_sometime(self.public@, token@)),
    {
        match system_seconds() {
            Some(now) => {
                let r = self.decode_token_at(token, now);
                proof {
                    lemma_rejection_is_invalid_token(self.public@, token@, now);
                    match &r {
                        Ok(claims) => {
                            assert(verified_claims(self.public@, token@, now) == Ok::<
                                ClaimsView,
                                AuthError,
                            >(claims@));
                        },
                        Err(_) => {
                            assert(verified_claims(self.public@, token@, now) is Err);
                        },
                    }
                }
                r
            },
            None => Err(AuthError::ClockUnavailable),
        }
    }

    /// Tells whose token this is at the time `now`.
    pub fn authenticate_at(&self, request: &AuthenticationRequest, now: u64) -> (r: Result<
        AuthenticationResponse,
        AuthError,
    >)
        ensures
            match r {
                Ok(response) => authenticated(self.public@, request.json_web_token@, now) == Ok::<
                    u128,
                    AuthError,
                >(response.user_uuid),
                Err(e) => authenticated(self.public@, request.json_web_token@, now) == Err::<
                    u128,
                    AuthError,
                >(e),
            },
    {
        let claims = self.decode_token_at(request.json_web_token.as_str(), now)?;
        match claims.get_user_id() {
            Some(user_uuid) => Ok(AuthenticationResponse { user_uuid }),
            None => Err(AuthError::InvalidToken),
        }
    }

    /// Stores a new user with this email and password digest, under the
    /// identifier `user_id`, registered at the time `now`, and gives its
    /// public part.
    pub fn register(&mut self, email: String, digest: String, user_id: u128, now: u64) -> (r:
        Result<SignUpResponse, AuthError>)
        ensures
            final(self).secret == old(self).secret,
            final(self).public == old(self).public,
            r matches Ok(response) ==> response.user@ == public_part(
                new_user(user_id, email@, digest@, now),
            ),
            r matches Err(e) ==> e == AuthError::DuplicateEmail || e
                == AuthError::StoreUnavailable,
            old(self).storage.reliable() ==> {
                &&& final(self).storage.reliable()
                &&& r is Ok <==> !old(self).storage.users().contains_key(email@)
                &&& r is Ok ==> final(self).storage.users() == old(self).storage.users().insert(
                    email@,
                    new_user(user_id, email@, digest@, now),
                )
                &&& r matches Err(e) ==> e == AuthError::DuplicateEmail
                    && final(self).storage.users() == old(self).storage.users()
            },
    {
        let user = User {
            id: user_id,
            email,
            password: digest,
            create_timestamp: Timestamp(now),
            last_update_timestamp: Timestamp(now),
        };
        match self.storage.create_user(CreateUserRequest { user: user.clone() }) {
            Ok(()) => Ok(SignUpResponse { user: PublicUser::from(user) }),
            Err(e) => Err(AuthError::from_store(e)),
        }
    }
}

impl<S: AuthStore> AuthService for AuthHandler<S> {
    /// Logs a user in: looks the email up, holds the password against the
    /// stored digest, and issues a token.
    fn login(&self, request: LoginRequest) -> (r: Result<LoginResponse, AuthError>)
        ensures
            r matches Ok(response) ==> issued_to(self.secret@, response.user@.id, response.jwt@)
                && response.jwt@.len() > 0,
            r matches Err(e) ==> e == AuthError::InvalidCredentials || e
                == AuthError::StoreUnavailable || e == AuthError::TokenIssueFailed || e
                == AuthError::ClockUnavailable,
            self.storage.reliable() ==> {
                &&& r == Err::<LoginResponse, AuthError>(AuthError::InvalidCredentials) <==> !knows(
                    self.storage.users(),
                    request.email@,
                    request.password@,
                )
                &&& r matches Ok(response) ==> response.user@ == public_part(
                    self.storage.users()[request.email@],
                )
                &&& r != Err::<LoginResponse, AuthError>(AuthError::StoreUnavailable)
                &&& r == Err::<LoginResponse, AuthError>(AuthError::TokenIssueFailed)
                    ==> cannot_always_issue(
                    self.secret@,
                    self.storage.users()[request.email@].id,
                )
                &&& self.keys_agree() && knows(
                    self.storage.users(),
                    request.email@,
                    request.password@,
                ) ==> r is Ok || r == Err::<LoginResponse, AuthError>(
                    AuthError::ClockUnavailable,
                )
            },
    {
        let found = self.storage.get_user(&request);
        let user = check_credentials(found, request.password.as_str())?;
        let jwt = self.create_jwt(user.id)?;
        Ok(LoginResponse { user: PublicUser::from(user), jwt })
    }

    /// Signs a user up: refuses an email that is taken, hashes the password,
    /// and stores the new user under a fresh identifier.
    fn sign_up(&mut self, request: SignUpRequest) -> (r: Result<SignUpResponse, AuthError>)
        ensures
            final(self).secret == old(self).secret,
            final(self).public == old(self).public,
            password_len(request.password@) > MAX_PASSWORD_BYTES ==> r is Err,
            r matches Ok(response) ==> response.user@.email == request.email@
                && response.user@.create_timestamp == response.user@.last_update_timestamp,
            r matches Err(e) ==> e == AuthError::DuplicateEmail || e
                == AuthError::StoreUnavailable || e == AuthError::HashingFailed || e
                == AuthError::ClockUnavailable,
            old(self).storage.reliable() ==> {
                let before = old(self).storage.users();
                let after = final(self).storage.users();
                &&& final(self).storage.reliable()
                &&& r == Err::<SignUpResponse, AuthError>(AuthError::DuplicateEmail)
                    <==> before.contains_key(request.email@)
                &&& r != Err::<SignUpResponse, AuthError>(AuthError::StoreUnavailable)
                &&& r is Err ==> after == before
                &&& r matches Ok(response) ==> {
                    &&& after == before.insert(request.email@, after[request.email@])
                    &&& digest_accepts(request.password@, after[request.email@].password)
                    &&& response.user@ == public_part(after[request.email@])
                }
            },
    {
        let lookup = LoginRequest { email: request.email.clone(), password: String::new() };
        let found = self.storage.get_user(&lookup);
        check_unregistered(&found)?;
        let digest = self.hash(request.password)?;
        let user_id = random_id();
        let now = match system_seconds() {
            Some(now) => now,
            None => {
                return Err(AuthError::ClockUnavailable);
            },
        };
        self.register(request.email, digest, user_id, now)
    }

    /// Tells whose token this is, by the clock.
    fn authenticate(&self, request: AuthenticationRequest) -> (r: Result<
        AuthenticationResponse,
        AuthError,
    >)
        ensures
            r matches Ok(response) ==> authenticated_sometime(
                self.public@,
                request.json_web_token@,
                response.user_uuid,
            ),
            r matches Err(e) ==> e == AuthError::ClockUnavailable || (e
                == AuthError::InvalidToken && unauthenticated_sometime(
                self.public@,
                request.json_web_token@,
            )),
    {
        match system_seconds() {
            Some(now) => {
                let r = self.authenticate_at(&request, now);
                proof {
                    lemma_rejection_is_invalid_token(self.public@, request.json_web_token@, now);
                    match r {
                        Ok(response) => {
                            assert(authenticated(self.public@, request.json_web_token@, now)
                                == Ok::<u128, AuthError>(response.user_uuid));
                        },
                        Err(_) => {
                            assert(authenticated(self.public@, request.json_web_token@, now)
                                is Err);
                        },
                    }
                }
                r
            },
            None => Err(AuthError::ClockUnavailable),
        }
    }
}

/// The buddy that the service makes of a request, a fresh identifier, the
/// time and the date of that time: not yet archived, last contacted on the
/// day it is made.
pub open spec fn new_buddy(request: CreateBuddyRequest, id: u128, now: u64, today: Seq<char>) -> BuddyView {
    BuddyView {
        id,
        name: request.name@,
        birthday: opt_date(request.birthday),
        cadence: request.cadence,
        notes: request.notes@,
        location: opt_place(request.location),
        last_contacted: today,
        create_timestamp: now,
        last_update_timestamp: now,
        delete_timestamp: None,
        user_id: request.user_id,
    }
}

/// The interaction that the service makes of a request, a fresh identifier
/// and the time.
pub open spec fn new_interaction(request: CreateInteractionRequest, id: u128, now: u64) -> InteractionView {
    InteractionView {
        id,
        notes: request.notes@,
        participants: request.participants@,
        date: opt_date(request.date),
        create_timestamp: now,
        last_update_timestamp: now,
        delete_timestamp: None,
        user_id: request.user_id,
    }
}

/// The service for buddies and interactions, over a store.
pub struct RequestHandler<S> {
    pub storage: S,
}

impl<S: BuddiesStore> RequestHandler<S> {
    pub fn new(storage: S) -> (r: RequestHandler<S>)
        ensures
            r.storage == storage,
    {
        RequestHandler { storage }
    }

    /// Stores the buddy of a request under the identifier `buddy_id`,
    /// created at the time `now`. A time that has no calendar date is
    /// refused.
    pub fn create_buddy_with(&mut self, request: CreateBuddyRequest, buddy_id: u128, now: u64) -> (r:
        Result<CreateBuddyResponse, ServiceError>)
        ensures
            date_of(now) is None ==> r == Err::<CreateBuddyResponse, ServiceError>(
                ServiceError::ClockUnavailable,
            ),
            r matches Ok(response) ==> date_of(now) is Some && response.buddy@ == new_buddy(
                request,
                buddy_id,
                now,
                date_of(now).unwrap(),
            ),
            r matches Err(e) ==> (e == ServiceError::ClockUnavailable <==> date_of(now) is None),
            old(self).storage.reliable() ==> {
                &&& final(self).storage.reliable()
                &&& final(self).storage.interactions() == old(self).storage.interactions()
                &&& r matches Ok(response) ==> final(self).storage.buddies() == old(
                    self,
                ).storage.buddies().insert(buddy_id, response.buddy@)
                &&& r is Err ==> final(self).storage.buddies() == old(self).storage.buddies()
            },
    {
        let today = match date_of_timestamp(now) {
            Some(today) => today,
            None => {
                return Err(ServiceError::ClockUnavailable);
            },
        };
        let buddy = Buddy {
            id: buddy_id,
            name: request.name,
            birthday: request.birthday,
            cadence: request.cadence,
            notes: request.notes,
            location: request.location,
            user_id: request.user_id,
            last_contacted: Datestamp(today),
            create_timestamp: Timestamp(now),
            last_update_timestamp: Timestamp(now),
            delete_timestamp: None,
        };
        match self.storage.create_buddy(buddy.clone()) {
            Ok(()) => Ok(CreateBuddyResponse { buddy }),
            Err(e) => Err(ServiceError::Store(e)),
        }
    }

    /// Stores the interaction of a request under the identifier
    /// `interaction_id`, created at the time `now`.
    pub fn create_interaction_with(
        &mut self,
        request: CreateInteractionRequest,
        interaction_id: u128,
        now: u64,
    ) -> (r: Result<CreateInteractionResponse, ServiceError>)
        ensures
            r matches Ok(response) ==> response.interaction@ == new_interaction(
                request,
                interaction_id,
                now,
            ),
            r matches Err(e) ==> e is Store,
            old(self).storage.reliable() ==> {
                &&& final(self).storage.reliable()
                &&& final(self).storage.buddies() == old(self).storage.buddies()
                &&& r matches Ok(response) ==> final(self).storage.interactions() == old(
                    self,
                ).storage.interactions().insert(interaction_id, response.interaction@)
                &&& r is Err ==> final(self).storage.interactions() == old(
                    self,
                ).storage.interactions()
            },
    {
        let interaction = Interaction {
            id: interaction_id,
            notes: request.notes,
            user_id: request.user_id,
            date: request.date,
            participants: request.participants,
            create_timestamp: Timestamp(now),
            last_update_timestamp: Timestamp(now),
            delete_timestamp: None,
        };
        match self.storage.create_interaction(interaction.clone()) {
            Ok(()) => Ok(CreateInteractionResponse { interaction }),
            Err(e) => Err(ServiceError::Store(e)),
        }
    }
}

impl<S: BuddiesStore> BuddiesService for RequestHandler<S> {
    /// Registers a buddy under a fresh identifier, as of now.
    fn create_buddy(&mut self, request: CreateBuddyRequest) -> (r: Result<
        CreateBuddyResponse,
        ServiceError,
    >)
        ensures
            r matches Ok(response) ==> date_of(response.buddy@.create_timestamp) is Some
                && response.buddy@ == new_buddy(
                request,
                response.buddy@.id,
                response.buddy@.create_timestamp,
                date_of(response.buddy@.create_timestamp).unwrap(),
            ),
            old(self).storage.reliable() ==> {
                &&& final(self).storage.reliable()
                &&& final(self).storage.interactions() == old(self).storage.interactions()
                &&& r matches Ok(response) ==> final(self).storage.buddies() == old(
                    self,
                ).storage.buddies().insert(response.buddy@.id, response.buddy@)
                &&& r is Err ==> final(self).storage.buddies() == old(self).storage.buddies()
            },
    {
        let buddy_id = random_id();
        match system_seconds() {
            Some(now) => self.create_buddy_with(request, buddy_id, now),
            None => Err(ServiceError::ClockUnavailable),
        }
    }

    /// The buddies and interactions of a user that are not archived.
    fn get_user_data(&self, request: GetUserDataRequest) -> (r: Result<
        GetUserDataResponse,
        ServiceError,
    >)
        ensures
            r matches Err(e) ==> e is Store,
            self.storage.reliable() ==> (r matches Ok(response) ==> {
                &&& buddy_views(response.buddies@) == buddies_of(
                    self.storage.buddies(),
                    request.user_id,
                )
                &&& interaction_views(response.interactions@) == interactions_of(
                    self.storage.interactions(),
                    request.user_id,
                )
            }),
    {
        let buddies = match self.storage.get_buddies(request.user_id) {
            Ok(buddies) => buddies,
            Err(e) => {
                return Err(ServiceError::Store(e));
            },
        };
        let interactions = match self.storage.get_interactions(request.user_id) {
            Ok(interactions) => interactions,
            Err(e) => {
                return Err(ServiceError::Store(e));
            },
        };
        Ok(GetUserDataResponse { buddies, interactions })
    }

    /// Archives a buddy of the user.
    fn archive_buddy(&mut self, request: ArchiveBuddyRequest) -> (r: Result<
        ArchiveBuddyResponse,
        ServiceError,
    >)
        ensures
            r matches Err(e) ==> e is Store,
            old(self).storage.reliable() ==> {
                &&& final(self).storage.reliable()
                &&& final(self).storage.interactions() == old(self).storage.interactions()
                &&& r is Ok ==> buddy_archived(
                    old(self).storage.buddies(),
                    final(self).storage.buddies(),
                    request.id,
                    request.user_id,
                )
                &&& r is Err ==> final(self).storage.buddies() == old(self).storage.buddies()
            },
    {
        match self.storage.archive_buddy(request.id, request.user_id) {
            Ok(()) => Ok(ArchiveBuddyResponse {  }),
            Err(e) => Err(ServiceError::Store(e)),
        }
    }

    /// Changes a buddy of the user.
    fn update_buddy(&mut self, request: UpdateBuddyRequest) -> (r: Result<
        UpdateBuddyResponse,
        ServiceError,
    >)
        ensures
            r matches Err(e) ==> e is Store,
            old(self).storage.reliable() ==> {
                &&& final(self).storage.reliable()
                &&& final(self).storage.interactions() == old(self).storage.interactions()
                &&& r is Ok ==> buddy_updated(
                    old(self).storage.buddies(),
                    final(self).storage.buddies(),
                    request,
                )
                &&& r is Err ==> final(self).storage.buddies() == old(self).storage.buddies()
            },
    {
        match self.storage.update_buddy(request) {
            Ok(()) => Ok(UpdateBuddyResponse {  }),
            Err(e) => Err(ServiceError::Store(e)),
        }
    }

    /// Registers an interaction under a fresh identifier, as of now.
    fn create_interaction(&mut self, request: CreateInteractionRequest) -> (r: Result<
        CreateInteractionResponse,
        ServiceError,
    >)
        ensures
            r matches Ok(response) ==> response.interaction@ == new_interaction(
                request,
                response.interaction@.id,
                response.interaction@.create_timestamp,
            ),
            old(self).storage.reliable() ==> {
                &&& final(self).storage.reliable()
                &&& final(self).storage.buddies() == old(self).storage.buddies()
                &&& r matches Ok(response) ==> final(self).storage.interactions() == old(
                    self,
                ).storage.interactions().insert(response.interaction@.id, response.interaction@)
                &&& r is Err ==> final(self).storage.interactions() == old(
                    self,
                ).storage.interactions()
            },
    {
        let interaction_id = random_id();
        match system_seconds() {
            Some(now) => self.create_interaction_with(request, interaction_id, now),
            None => Err(ServiceError::ClockUnavailable),
        }
    }

    /// Changes an interaction of the user.
    fn update_interaction(&mut self, request: UpdateInteractionRequest) -> (r: Result<
        UpdateInteractionResponse,
        ServiceError,
    >)
        ensures
            r matches Err(e) ==> e is Store,
            old(self).storage.reliable() ==> {
                &&& final(self).storage.reliable()
                &&& final(self).storage.buddies() == old(self).storage.buddies()
                &&& r is Ok ==> interaction_updated(
                    old(self).storage.interactions(),
                    final(self).storage.interactions(),
                    request,
                )
                &&& r is Err ==> final(self).storage.interactions() == old(
                    self,
                ).storage.interactions()
            },
    {
        match self.storage.update_interaction(request) {
            Ok(()) => Ok(UpdateInteractionResponse {  }),
            Err(e) => Err(ServiceError::Store(e)),
        }
    }

    /// Archives an interaction of the user.
    fn archive_interaction(&mut self, request: ArchiveInteractionRequest) -> (r: Result<
        ArchiveInteractionResponse,
        ServiceError,
    >)
        ensures
            r matches Err(e) ==> e is Store,
            old(self).storage.reliable() ==> {
                &&& final(self).storage.reliable()
                &&& final(self).storage.buddies() == old(self).storage.buddies()
                &&& r is Ok ==> interaction_archived(
                    old(self).storage.interactions(),
                    final(self).storage.interactions(),
                    request.id,
                    request.user_id,
                )
                &&& r is Err ==> final(self).storage.interactions() == old(
                    self,
                ).storage.interactions()
            },
    {
        match self.storage.archive_interaction(request.id, request.user_id) {
            Ok(()) => Ok(ArchiveInteractionResponse {  }),
            Err(e) => Err(ServiceError::Store(e)),
        }
    }
}

} // verus!
