use auth_service::auth::{authenticate, authenticate_at, extract_token, Authenticated, RequireAuth};
use auth_service::models::{User, UserRole};
use auth_service::token::{create_token, create_token_at};

const SECRET: &[u8] = b"pipeline-secret";
const SUBJECT: &str = "67e55044-10b1-426f-9247-bb680e5fe0c8";
const SUBJECT_ID: u128 = 0x67e5504410b1426f9247bb680e5fe0c8;

fn user_with(role: UserRole) -> User {
    User {
        id: SUBJECT_ID,
        name: "Ada".to_string(),
        email: "ada@example.com".to_string(),
        role,
        photo: "default.png".to_string(),
        verified: true,
        password: "$argon2id$stored".to_string(),
        created_at: Some(1_700_000_000_000_000),
        updated_at: Some(1_700_000_000_000_000),
    }
}

#[test]
fn no_credential_is_token_not_provided() {
    let token = extract_token(None, None);
    assert_eq!(token, None);
    let e = authenticate(token, SECRET).unwrap_err();
    assert_eq!(e.status, 401);
    assert_eq!(e.message, "Token not provided");
}

#[test]
fn cookie_wins_over_header() {
    assert_eq!(extract_token(Some("from-cookie"), Some("Bearer from-header")), Some("from-cookie".to_string()));
    assert_eq!(extract_token(None, Some("Bearer from-header")), Some("from-header".to_string()));
}

#[test]
fn header_without_bearer_prefix_yields_nothing() {
    assert_eq!(extract_token(None, Some("Basic abc")), None);
    assert_eq!(extract_token(None, Some("bearer abc")), None);
    assert_eq!(extract_token(None, Some("Bear")), None);
    assert_eq!(extract_token(None, Some("Bearer ")), Some(String::new()));
}

#[test]
fn valid_token_resolves_to_identity_key() {
    let token = create_token(SUBJECT, SECRET, 3600).unwrap();
    let header = format!("Bearer {}", token);
    let credential = extract_token(None, Some(&header));
    assert_eq!(authenticate(credential, SECRET).unwrap(), SUBJECT_ID);
}

#[test]
fn non_uuid_subject_is_invalid_token() {
    let token = create_token_at("not-a-uuid", SECRET, 60, 1_000).unwrap();
    let e = authenticate_at(Some(token), SECRET, 1_000).unwrap_err();
    assert_eq!((e.status, e.message.as_str()), (401, "Invalid token"));
}

#[test]
fn expired_credential_is_invalid_token() {
    let token = create_token_at(SUBJECT, SECRET, 60, 1_000).unwrap();
    assert_eq!(authenticate_at(Some(token.clone()), SECRET, 1_060).unwrap(), SUBJECT_ID);
    let e = authenticate_at(Some(token), SECRET, 1_061).unwrap_err();
    assert_eq!((e.status, e.message.as_str()), (401, "Invalid token"));
}

#[test]
fn user_role_against_admin_route_is_forbidden() {
    let token = create_token(SUBJECT, SECRET, 3600).unwrap();
    let id = authenticate(Some(token), SECRET).unwrap();
    assert_eq!(id, SUBJECT_ID);
    let policy = RequireAuth::allow_roles(vec![UserRole::Admin]);
    let e = policy.authorize(Ok(Some(user_with(UserRole::User)))).unwrap_err();
    assert_eq!(e.status, 403);
    assert_eq!(e.message, "Permission denied");
}

#[test]
fn vanished_identity_is_user_no_longer_exist() {
    let token = create_token(SUBJECT, SECRET, 3600).unwrap();
    assert_eq!(authenticate(Some(token), SECRET).unwrap(), SUBJECT_ID);
    let policy = RequireAuth::allow_roles(vec![UserRole::Admin, UserRole::Moderator]);
    let e = policy.authorize(Ok(None)).unwrap_err();
    assert_eq!(e.status, 401);
    assert_eq!(e.message, "User no longer exist");
}

#[test]
fn admin_on_admin_or_moderator_route_is_forwarded() {
    let token = create_token(SUBJECT, SECRET, 3600).unwrap();
    assert_eq!(authenticate(Some(token), SECRET).unwrap(), SUBJECT_ID);
    let policy = RequireAuth::allow_roles(vec![UserRole::Admin, UserRole::Moderator]);
    let user = policy.authorize(Ok(Some(user_with(UserRole::Admin)))).unwrap();
    let current = Authenticated::from_identity(Some(user)).unwrap();
    assert_eq!(current.user().id, SUBJECT_ID);
    assert_eq!(current.user().role, UserRole::Admin);
    assert_eq!(current.user().email, "ada@example.com");
}

#[test]
fn directory_failure_is_redacted_server_error() {
    let policy = RequireAuth::allow_roles(vec![UserRole::User]);
    let e = policy.authorize(Err("connection refused by db-host-7".to_string())).unwrap_err();
    assert_eq!(e.status, 500);
    assert_eq!(e.message, "Server error, Please try again later");
}

#[test]
fn empty_policy_permits_nobody() {
    let policy = RequireAuth::allow_roles(vec![]);
    assert!(!policy.permits(UserRole::Admin));
    assert!(RequireAuth::allow_roles(vec![UserRole::Moderator]).permits(UserRole::Moderator));
}

#[test]
fn missing_identity_context_is_server_error() {
    let e = Authenticated::from_identity(None).err().unwrap();
    assert_eq!(e.status, 500);
    assert_eq!(e.message, "Authentication error");
}
