use buddies::credential::{hash_password, verify_password, MAX_PASSWORD_BYTES};
use buddies::error::{AuthError, StoreError};
use buddies::ident::{id_from_str, id_to_string};
use buddies::routes::{authenticate, authenticate_at, authorize, parse_bearer};
use buddies::service::{check_credentials, check_unregistered, AuthHandler, AuthService, Claims};
use buddies::storage::memory::MemoryBuddiesStore;
use buddies::storage::traits::AuthStore;
use buddies::token::{issue_token, verify_token, TOKEN_LIFETIME_SECONDS};
use buddies::types::{
    AuthenticationRequest, CreateUserRequest, LoginRequest, SignUpRequest, Timestamp, User,
};
use rsa::pkcs8::{EncodePrivateKey, EncodePublicKey, LineEnding};
use rsa::rand_core::{CryptoRng, RngCore};
use rsa::{RsaPrivateKey, RsaPublicKey};

/// A key pair as PEM text.
struct Keys {
    secret: Vec<u8>,
    public: Vec<u8>,
}

/// A source of reproducible bytes for making test keys, so that every run
/// of a test does the same work. It is of no use for real keys.
struct Seeded(u64);

impl RngCore for Seeded {
    fn next_u32(&mut self) -> u32 {
        (self.next_u64() >> 32) as u32
    }

    fn next_u64(&mut self) -> u64 {
        self.0 = self.0.wrapping_add(0x9e37_79b9_7f4a_7c15);
        let mut z = self.0;
        z = (z ^ (z >> 30)).wrapping_mul(0xbf58_476d_1ce4_e5b9);
        z = (z ^ (z >> 27)).wrapping_mul(0x94d0_49bb_1331_11eb);
        z ^ (z >> 31)
    }

    fn fill_bytes(&mut self, dest: &mut [u8]) {
        for chunk in dest.chunks_mut(8) {
            let bytes = self.next_u64().to_le_bytes();
            chunk.copy_from_slice(&bytes[..chunk.len()]);
        }
    }

    fn try_fill_bytes(&mut self, dest: &mut [u8]) -> Result<(), rsa::rand_core::Error> {
        self.fill_bytes(dest);
        Ok(())
    }
}

impl CryptoRng for Seeded {}

/// The 2048-bit RSA key pair that a seed gives. No key is kept in this file:
/// each test that signs makes the pair it needs.
fn keys_of(seed: u64) -> Keys {
    let private = RsaPrivateKey::new(&mut Seeded(seed), 2048).unwrap();
    let public = RsaPublicKey::from(&private);
    Keys {
        secret: private.to_pkcs8_pem(LineEnding::LF).unwrap().as_bytes().to_vec(),
        public: public.to_public_key_pem(LineEnding::LF).unwrap().into_bytes(),
    }
}

/// The key pair that the tests sign and verify with.
fn signing_keys() -> Keys {
    keys_of(201)
}

/// A key pair that has nothing to do with the first.
fn other_keys() -> Keys {
    keys_of(202)
}

const USER: u128 = 0x550e8400_e29b_41d4_a716_446655440000;

/// A handler that can sign and verify.
fn handler() -> AuthHandler<MemoryBuddiesStore> {
    let keys = signing_keys();
    AuthHandler::new(MemoryBuddiesStore::new(), keys.secret, keys.public).unwrap()
}

/// A handler for the tests that issue no token: it holds no keys.
fn handler_without_keys() -> AuthHandler<MemoryBuddiesStore> {
    AuthHandler::new(MemoryBuddiesStore::new(), Vec::new(), Vec::new()).unwrap()
}

fn sign_up_request(email: &str, password: &str) -> SignUpRequest {
    SignUpRequest { email: email.to_string(), password: password.to_string() }
}

fn login_request(email: &str, password: &str) -> LoginRequest {
    LoginRequest { email: email.to_string(), password: password.to_string() }
}

fn flip_last_signature_byte_but_one(token: &str) -> String {
    let mut bytes = token.as_bytes().to_vec();
    let at = bytes.len() - 10;
    bytes[at] = if bytes[at] == b'A' { b'B' } else { b'A' };
    String::from_utf8(bytes).unwrap()
}

#[test]
fn hashed_password_verifies() {
    let digest = hash_password("secret123").unwrap();
    assert!(verify_password("secret123", &digest));
}

#[test]
fn hashing_twice_gives_two_digests() {
    let first = hash_password("secret123").unwrap();
    let second = hash_password("secret123").unwrap();
    assert_ne!(first, second);
}

#[test]
fn other_password_does_not_verify() {
    let digest = hash_password("secret123").unwrap();
    assert!(!verify_password("secret124", &digest));
    assert!(!verify_password("", &digest));
}

#[test]
fn digest_is_self_describing() {
    let digest = hash_password("secret123").unwrap();
    assert_ne!(digest, "secret123");
    assert!(digest.starts_with("$2b$12$"));
    assert_eq!(digest.len(), 60);
}

#[test]
fn known_digest_verifies() {
    let digest = "$2b$04$EGdrhbKUv8Oc9vGiXX0HQOxSg445d458Muh7DAHskb6QbtCvdxcie";
    assert!(verify_password("correctbatteryhorsestapler", digest));
    assert!(!verify_password("correctbatteryhorsestaple", digest));
}

#[test]
fn malformed_digest_accepts_nothing() {
    assert!(!verify_password("secret123", "not a digest"));
    assert!(!verify_password("secret123", ""));
    assert!(!verify_password("secret123", "secret123"));
}

#[test]
fn longest_password_is_hashed() {
    assert_eq!(MAX_PASSWORD_BYTES, 71);
    let password = "a".repeat(71);
    let digest = hash_password(&password).unwrap();
    assert!(verify_password(&password, &digest));
}

#[test]
fn too_long_password_is_refused() {
    let password = "a".repeat(72);
    assert_eq!(hash_password(&password), Err(AuthError::HashingFailed));
    // 36 characters of two bytes each
    let wide = "\u{e9}".repeat(36);
    assert_eq!(hash_password(&wide), Err(AuthError::HashingFailed));
}

#[test]
fn issued_token_names_its_user() {
    let keys = signing_keys();
    let token = issue_token(&keys.secret, USER, 1_000).unwrap();
    let claims: Claims = verify_token(&keys.public, &token, 1_000).unwrap();
    assert_eq!(claims.sub, "550e8400-e29b-41d4-a716-446655440000");
    assert_eq!(claims.exp, 1_000 + 72 * 3600);
    assert_eq!(claims.get_user_id(), Some(USER));
}

#[test]
fn token_lifetime_is_72_hours() {
    assert_eq!(TOKEN_LIFETIME_SECONDS, 259_200);
    let claims = Claims::with_user_id(USER, 1_600_000_000).unwrap();
    assert_eq!(claims.exp, 1_600_259_200);
    assert_eq!(claims.sub, "550e8400-e29b-41d4-a716-446655440000");
}

#[test]
fn claims_beyond_the_last_second_are_refused() {
    let keys = signing_keys();
    assert!(Claims::with_user_id(USER, u64::MAX).is_none());
    assert!(Claims::with_user_id(USER, u64::MAX - 259_199).is_none());
    assert_eq!(Claims::with_user_id(USER, u64::MAX - 259_200).unwrap().exp, u64::MAX);
    assert_eq!(issue_token(&keys.secret, USER, u64::MAX), Err(AuthError::TokenIssueFailed));
}

#[test]
fn token_is_good_until_its_expiry() {
    let keys = signing_keys();
    let token = issue_token(&keys.secret, USER, 1_000).unwrap();
    let last = 1_000 + 259_200;
    assert!(verify_token(&keys.public, &token, last).is_ok());
    assert_eq!(verify_token(&keys.public, &token, 0).unwrap().exp, last);
}

#[test]
fn expired_token_is_rejected() {
    let keys = signing_keys();
    let token = issue_token(&keys.secret, USER, 1_000).unwrap();
    let last = 1_000 + 259_200;
    let r = verify_token(&keys.public, &token, last + 1);
    assert_eq!(r.err(), Some(AuthError::InvalidToken));
    let r = verify_token(&keys.public, &token, u64::MAX);
    assert_eq!(r.err(), Some(AuthError::InvalidToken));
}

#[test]
fn token_with_flipped_signature_is_rejected() {
    let keys = signing_keys();
    let token = issue_token(&keys.secret, USER, 1_000).unwrap();
    let forged = flip_last_signature_byte_but_one(&token);
    assert_ne!(forged, token);
    let r = verify_token(&keys.public, &forged, 1_000);
    assert_eq!(r.err(), Some(AuthError::InvalidToken));
}

#[test]
fn token_of_another_key_is_rejected() {
    let keys = signing_keys();
    let token = issue_token(&other_keys().secret, USER, 1_000).unwrap();
    let r = verify_token(&keys.public, &token, 1_000);
    assert_eq!(r.err(), Some(AuthError::InvalidToken));
}

#[test]
fn malformed_token_is_rejected() {
    let keys = signing_keys();
    for token in ["", "abc", "a.b.c", "a.b", "....", "Bearer x"] {
        let r = verify_token(&keys.public, token, 1_000);
        assert_eq!(r.err(), Some(AuthError::InvalidToken));
    }
}

#[test]
fn signing_is_a_function_of_key_and_claims() {
    let keys = signing_keys();
    let first = issue_token(&keys.secret, USER, 1_000).unwrap();
    let second = issue_token(&keys.secret, USER, 1_000).unwrap();
    assert_eq!(first, second);
    let later = issue_token(&keys.secret, USER, 1_001).unwrap();
    assert_ne!(first, later);
    let other = issue_token(&keys.secret, USER + 1, 1_000).unwrap();
    assert_ne!(first, other);
}

#[test]
fn bad_keys_fail_closed() {
    let keys = signing_keys();
    assert_eq!(issue_token(b"no key", USER, 1_000), Err(AuthError::TokenIssueFailed));
    assert_eq!(issue_token(&keys.public, USER, 1_000), Err(AuthError::TokenIssueFailed));
    let token = issue_token(&keys.secret, USER, 1_000).unwrap();
    assert_eq!(verify_token(b"no key", &token, 1_000).err(), Some(AuthError::InvalidToken));
}

#[test]
fn identifier_text_round_trips() {
    assert_eq!(id_to_string(USER), "550e8400-e29b-41d4-a716-446655440000");
    assert_eq!(id_to_string(0), "00000000-0000-0000-0000-000000000000");
    assert_eq!(id_to_string(u128::MAX), "ffffffff-ffff-ffff-ffff-ffffffffffff");
    assert_eq!(id_to_string(0xabcdef), "00000000-0000-0000-0000-000000abcdef");
    assert_eq!(id_to_string(1u128 << 124), "10000000-0000-0000-0000-000000000000");
    assert_eq!(id_from_str("550e8400-e29b-41d4-a716-446655440000"), Some(USER));
    assert_eq!(id_from_str("550e8400e29b41d4a716446655440000"), Some(USER));
    assert_eq!(id_from_str("550E8400-E29B-41D4-A716-446655440000"), Some(USER));
    assert_eq!(id_from_str("550e8400-e29b-41d4-a716-44665544000"), None);
    assert_eq!(id_from_str(""), None);
    assert_eq!(id_from_str("not an identifier"), None);
}

#[test]
fn handler_issues_and_decodes() {
    let handler = handler();
    let token = handler.create_jwt_at(USER, 5_000).unwrap();
    let claims = handler.decode_token_at(&token, 5_000).unwrap();
    assert_eq!(claims.get_user_id(), Some(USER));
    assert_eq!(claims.exp, 5_000 + 259_200);
    assert_eq!(
        handler.decode_token_at(&token, 5_000 + 259_201).err(),
        Some(AuthError::InvalidToken)
    );
    let request = AuthenticationRequest { json_web_token: token };
    assert_eq!(handler.authenticate_at(&request, 5_000).unwrap().user_uuid, USER);
    assert_eq!(
        handler.authenticate_at(&request, 5_000 + 259_201).err(),
        Some(AuthError::InvalidToken)
    );
}

#[test]
fn handler_verifies_against_the_clock() {
    let handler = handler();
    let token = handler.create_jwt(USER).unwrap();
    assert_eq!(handler.decode_token(&token).unwrap().get_user_id(), Some(USER));
    let response = handler.authenticate(AuthenticationRequest { json_web_token: token }).unwrap();
    assert_eq!(response.user_uuid, USER);
    let stale = handler.create_jwt_at(USER, 1_000).unwrap();
    assert_eq!(handler.decode_token(&stale).err(), Some(AuthError::InvalidToken));
    let r = handler.authenticate(AuthenticationRequest { json_web_token: stale });
    assert_eq!(r.err(), Some(AuthError::InvalidToken));
}

#[test]
fn claims_about_no_identifier_name_nobody() {
    let claims = Claims { sub: "somebody".to_string(), exp: 10_000 };
    assert_eq!(claims.get_user_id(), None);
    let claims = Claims { sub: id_to_string(USER), exp: 10_000 };
    assert_eq!(claims.get_user_id(), Some(USER));
}

#[test]
fn sign_up_returns_the_public_user() {
    let mut handler = handler_without_keys();
    let response = handler.sign_up(sign_up_request("a@example.com", "secret123")).unwrap();
    assert_eq!(response.user.email, "a@example.com");
    assert_eq!(response.user.create_timestamp, response.user.last_update_timestamp);
    let stored = handler.storage.find_user(&"a@example.com".to_string()).unwrap();
    assert_eq!(stored.id, response.user.id);
    assert_eq!(stored.email, "a@example.com");
    assert_ne!(stored.password, "secret123");
    assert!(verify_password("secret123", &stored.password));
    assert_eq!(stored.create_timestamp, response.user.create_timestamp);
}

#[test]
fn second_sign_up_with_the_same_email_fails() {
    let mut handler = handler_without_keys();
    let first = handler.sign_up(sign_up_request("a@example.com", "secret123")).unwrap();
    let second = handler.sign_up(sign_up_request("a@example.com", "other-password"));
    assert_eq!(second.err(), Some(AuthError::DuplicateEmail));
    let stored = handler.storage.find_user(&"a@example.com".to_string()).unwrap();
    assert_eq!(stored.id, first.user.id);
    assert!(verify_password("secret123", &stored.password));
}

#[test]
fn emails_are_case_sensitive() {
    let mut handler = handler_without_keys();
    let lower = handler.sign_up(sign_up_request("a@example.com", "secret123")).unwrap();
    let upper = handler.sign_up(sign_up_request("A@example.com", "secret123")).unwrap();
    assert_ne!(lower.user.id, upper.user.id);
}

#[test]
fn sign_up_with_too_long_password_stores_nothing() {
    let mut handler = handler_without_keys();
    let r = handler.sign_up(sign_up_request("a@example.com", &"x".repeat(72)));
    assert_eq!(r.err(), Some(AuthError::HashingFailed));
    assert!(handler.storage.find_user(&"a@example.com".to_string()).is_none());
}

#[test]
fn login_returns_a_token_for_the_user() {
    let mut handler = handler();
    let signed_up = handler.sign_up(sign_up_request("a@example.com", "secret123")).unwrap();
    let logged_in = handler.login(login_request("a@example.com", "secret123")).unwrap();
    assert_eq!(logged_in.user, signed_up.user);
    let request = AuthenticationRequest { json_web_token: logged_in.jwt };
    let authenticated = handler.authenticate(request).unwrap();
    assert_eq!(authenticated.user_uuid, signed_up.user.id);
}

#[test]
fn login_failures_are_one_error() {
    let mut handler = handler_without_keys();
    handler.sign_up(sign_up_request("a@example.com", "secret123")).unwrap();
    let wrong_password = handler.login(login_request("a@example.com", "wrong")).err();
    let unknown_email = handler.login(login_request("b@example.com", "secret123")).err();
    assert_eq!(wrong_password, Some(AuthError::InvalidCredentials));
    assert_eq!(unknown_email, wrong_password);
}

#[test]
fn login_on_an_empty_store_fails() {
    let handler = handler_without_keys();
    let r = handler.login(login_request("a@example.com", "secret123"));
    assert_eq!(r.err(), Some(AuthError::InvalidCredentials));
}

#[test]
fn register_stores_what_it_is_given() {
    let mut handler = handler_without_keys();
    let response = handler
        .register("a@example.com".to_string(), "digest".to_string(), USER, 77)
        .unwrap();
    assert_eq!(response.user.id, USER);
    assert_eq!(response.user.email, "a@example.com");
    assert_eq!(response.user.create_timestamp.0, 77);
    assert_eq!(response.user.last_update_timestamp.0, 77);
    let stored = handler.storage.get_user(&login_request("a@example.com", "")).unwrap();
    assert_eq!(stored.password, "digest");
    let again = handler.register("a@example.com".to_string(), "other".to_string(), USER + 1, 78);
    assert_eq!(again.err(), Some(AuthError::DuplicateEmail));
    let stored = handler.storage.get_user(&login_request("a@example.com", "")).unwrap();
    assert_eq!(stored.password, "digest");
    assert_eq!(stored.id, USER);
}

#[test]
fn guard_takes_the_token_of_a_bearer_header() {
    assert_eq!(parse_bearer("Bearer abc"), Some("abc".to_string()));
    assert_eq!(parse_bearer("Bearer a.b.c"), Some("a.b.c".to_string()));
    assert_eq!(parse_bearer("Bearer "), Some(String::new()));
    assert_eq!(parse_bearer("Bearer \u{e9}t\u{e9}"), Some("\u{e9}t\u{e9}".to_string()));
}

#[test]
fn guard_refuses_other_shapes() {
    for header in [
        "Token abc",
        "",
        "Bearer",
        "bearer abc",
        "BEARER abc",
        "Bearer  abc",
        "Bearer abc ",
        " Bearer abc",
        "Bearer abc def",
        "Bearerabc",
        "Basic dXNlcjpwYXNz",
        "Bearer\tabc",
    ] {
        assert_eq!(parse_bearer(header), None, "{:?}", header);
    }
}

#[test]
fn wrong_scheme_is_malformed_not_invalid() {
    let handler = handler();
    let r = authenticate(&handler, "Token abc".to_string());
    assert_eq!(r, Err(AuthError::MalformedAuthorizationHeader));
    let token = handler.create_jwt(USER).unwrap();
    let r = authenticate(&handler, format!("Token {}", token));
    assert_eq!(r, Err(AuthError::MalformedAuthorizationHeader));
    let r = authenticate_at(&handler, &format!("Token {}", token), 0);
    assert_eq!(r, Err(AuthError::MalformedAuthorizationHeader));
}

#[test]
fn guard_resolves_the_user_of_a_good_token() {
    let handler = handler();
    let token = handler.create_jwt(USER).unwrap();
    assert_eq!(authenticate(&handler, format!("Bearer {}", token)), Ok(USER));
    let token = handler.create_jwt_at(USER, 1_000).unwrap();
    assert_eq!(authenticate_at(&handler, &format!("Bearer {}", token), 1_000), Ok(USER));
    assert_eq!(authenticate_at(&handler, &format!("Bearer {}", token), 260_200), Ok(USER));
}

#[test]
fn guard_rejects_a_bad_token_as_invalid() {
    let handler = handler();
    assert_eq!(authenticate(&handler, "Bearer abc".to_string()), Err(AuthError::InvalidToken));
    assert_eq!(authenticate(&handler, "Bearer ".to_string()), Err(AuthError::InvalidToken));
    let token = handler.create_jwt_at(USER, 1_000).unwrap();
    let header = format!("Bearer {}", token);
    assert_eq!(authenticate(&handler, header.clone()), Err(AuthError::InvalidToken));
    assert_eq!(authenticate_at(&handler, &header, 260_201), Err(AuthError::InvalidToken));
    let forged = format!("Bearer {}", flip_last_signature_byte_but_one(&token));
    assert_eq!(authenticate_at(&handler, &forged, 1_000), Err(AuthError::InvalidToken));
}

#[test]
fn sign_up_then_login_then_authenticate() {
    let mut handler = handler();
    let signed_up = handler.sign_up(sign_up_request("a@example.com", "secret123")).unwrap();
    assert_eq!(signed_up.user.email, "a@example.com");
    let second = handler.sign_up(sign_up_request("a@example.com", "secret123"));
    assert_eq!(second.err(), Some(AuthError::DuplicateEmail));
    let logged_in = handler.login(login_request("a@example.com", "secret123")).unwrap();
    let header = format!("Bearer {}", logged_in.jwt);
    assert_eq!(authenticate(&handler, header), Ok(signed_up.user.id));
    let wrong = handler.login(login_request("a@example.com", "wrong"));
    assert_eq!(wrong.err(), Some(AuthError::InvalidCredentials));
}

#[test]
fn passwords_of_nothing_but_nul_are_alike_to_bcrypt() {
    // bcrypt repeats the password to fill its key, so it cannot tell these
    // two apart.
    let digest = hash_password("\0").unwrap();
    assert!(verify_password("\0\0\0\0\0\0\0\0", &digest));
    assert!(!verify_password("a", &digest));
}

#[test]
fn identifier_text_is_32_digits_most_significant_first() {
    for id in [USER, 0, 1, u128::MAX, 0x0123_4567_89ab_cdef_fedc_ba98_7654_3210] {
        let text: Vec<char> = id_to_string(id).chars().collect();
        assert_eq!(text.len(), 36);
        let mut k = 0;
        for (i, c) in text.iter().enumerate() {
            if i == 8 || i == 13 || i == 18 || i == 23 {
                assert_eq!(*c, '-');
            } else {
                let digit = (id >> (4 * (31 - k))) & 0xf;
                assert_eq!(*c, std::char::from_digit(digit as u32, 16).unwrap());
                k += 1;
            }
        }
        assert_eq!(k, 32);
    }
}

#[test]
fn sign_up_gives_fresh_identifiers() {
    let mut handler = handler_without_keys();
    let a = handler.sign_up(sign_up_request("a@example.com", "secret123")).unwrap();
    let b = handler.sign_up(sign_up_request("b@example.com", "secret123")).unwrap();
    assert_ne!(a.user.id, b.user.id);
    let a_digest = handler.storage.find_user(&"a@example.com".to_string()).unwrap().password;
    let b_digest = handler.storage.find_user(&"b@example.com".to_string()).unwrap().password;
    assert_ne!(a_digest, b_digest);
}

/// A store that cannot be reached.
struct Down;

impl AuthStore for Down {
    fn create_user(&mut self, _request: CreateUserRequest) -> Result<(), StoreError> {
        Err(StoreError::Unavailable)
    }

    fn get_user(&self, _request: &LoginRequest) -> Result<User, StoreError> {
        Err(StoreError::Unavailable)
    }
}

/// A store that finds nobody and cannot be written to.
struct ReadOnly;

impl AuthStore for ReadOnly {
    fn create_user(&mut self, _request: CreateUserRequest) -> Result<(), StoreError> {
        Err(StoreError::Unavailable)
    }

    fn get_user(&self, _request: &LoginRequest) -> Result<User, StoreError> {
        Err(StoreError::NotFound)
    }
}

fn stored_user(digest: &str) -> User {
    User {
        id: USER,
        email: "a@example.com".to_string(),
        password: digest.to_string(),
        create_timestamp: Timestamp(1),
        last_update_timestamp: Timestamp(1),
    }
}

#[test]
fn a_store_that_is_down_is_reported_as_such() {
    let mut handler =
        AuthHandler::new(Down, Vec::new(), Vec::new()).unwrap();
    let r = handler.sign_up(sign_up_request("a@example.com", "secret123"));
    assert_eq!(r.err(), Some(AuthError::StoreUnavailable));
    let r = handler.login(login_request("a@example.com", "secret123"));
    assert_eq!(r.err(), Some(AuthError::StoreUnavailable));
    let r = handler.register("a@example.com".to_string(), "digest".to_string(), USER, 1);
    assert_eq!(r.err(), Some(AuthError::StoreUnavailable));
}

#[test]
fn a_store_that_cannot_be_written_fails_sign_up() {
    let mut handler =
        AuthHandler::new(ReadOnly, Vec::new(), Vec::new())
            .unwrap();
    let r = handler.sign_up(sign_up_request("a@example.com", "secret123"));
    assert_eq!(r.err(), Some(AuthError::StoreUnavailable));
    let r = handler.login(login_request("a@example.com", "secret123"));
    assert_eq!(r.err(), Some(AuthError::InvalidCredentials));
}

#[test]
fn login_without_a_signing_key_fails_after_the_password() {
    let mut handler =
        AuthHandler::new(MemoryBuddiesStore::new(), b"no key".to_vec(), Vec::new())
            .unwrap();
    handler.sign_up(sign_up_request("a@example.com", "secret123")).unwrap();
    let r = handler.login(login_request("a@example.com", "wrong"));
    assert_eq!(r.err(), Some(AuthError::InvalidCredentials));
    let r = handler.login(login_request("a@example.com", "secret123"));
    assert_eq!(r.err(), Some(AuthError::TokenIssueFailed));
    assert_eq!(handler.create_jwt(USER), Err(AuthError::TokenIssueFailed));
}

#[test]
fn sign_up_goes_on_only_for_a_free_email() {
    assert_eq!(check_unregistered(&Ok(stored_user("digest"))), Err(AuthError::DuplicateEmail));
    assert_eq!(check_unregistered(&Err(StoreError::NotFound)), Ok(()));
    assert_eq!(
        check_unregistered(&Err(StoreError::Unavailable)),
        Err(AuthError::StoreUnavailable)
    );
    assert_eq!(
        check_unregistered(&Err(StoreError::DuplicateEmail)),
        Err(AuthError::StoreUnavailable)
    );
}

#[test]
fn login_goes_on_only_for_a_user_whose_password_fits() {
    let digest = "$2b$04$EGdrhbKUv8Oc9vGiXX0HQOxSg445d458Muh7DAHskb6QbtCvdxcie";
    let r = check_credentials(Ok(stored_user(digest)), "correctbatteryhorsestapler");
    assert_eq!(r, Ok(stored_user(digest)));
    let r = check_credentials(Ok(stored_user(digest)), "wrong");
    assert_eq!(r, Err(AuthError::InvalidCredentials));
    let r = check_credentials(Ok(stored_user("no digest")), "wrong");
    assert_eq!(r, Err(AuthError::InvalidCredentials));
    let r = check_credentials(Err(StoreError::NotFound), "correctbatteryhorsestapler");
    assert_eq!(r, Err(AuthError::InvalidCredentials));
    let r = check_credentials(Err(StoreError::Unavailable), "correctbatteryhorsestapler");
    assert_eq!(r, Err(AuthError::StoreUnavailable));
    let r = check_credentials(Err(StoreError::DuplicateEmail), "correctbatteryhorsestapler");
    assert_eq!(r, Err(AuthError::StoreUnavailable));
}

#[test]
fn a_key_that_is_no_pem_issues_and_opens_nothing() {
    let handler = handler_without_keys();
    assert_eq!(handler.create_jwt(0), Err(AuthError::TokenIssueFailed));
    assert_eq!(handler.create_jwt_at(USER, 1_000), Err(AuthError::TokenIssueFailed));
    assert_eq!(issue_token(b"", USER, 1_000), Err(AuthError::TokenIssueFailed));
    assert_eq!(issue_token(b"-----BEGIN", USER, 1_000), Err(AuthError::TokenIssueFailed));
    assert_eq!(handler.decode_token("a.b.c").err(), Some(AuthError::InvalidToken));
    assert_eq!(verify_token(b"", "a.b.c", 0).err(), Some(AuthError::InvalidToken));
}

#[test]
fn a_token_is_three_parts_joined_by_dots() {
    let keys = signing_keys();
    let token = issue_token(&keys.secret, USER, 1_000).unwrap();
    assert!(!token.is_empty());
    let parts: Vec<&str> = token.split('.').collect();
    assert_eq!(parts.len(), 3);
    assert!(parts.iter().all(|part| !part.is_empty()));
}

#[test]
fn a_user_acts_for_themselves_alone() {
    assert_eq!(authorize(USER, USER), Ok(USER));
    assert_eq!(authorize(0, 0), Ok(0));
    assert_eq!(authorize(USER, USER + 1), Err(AuthError::InvalidToken));
    assert_eq!(authorize(USER + 1, USER), Err(AuthError::InvalidToken));
}
