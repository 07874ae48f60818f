use auth_service::config::Config;
use auth_service::error::{ErrorMessage, HttpError};
use auth_service::models::UserRole;

#[test]
fn messages_have_stable_text() {
    assert_eq!(ErrorMessage::EmptyPassword.to_str(), "Password cannot be empty");
    assert_eq!(ErrorMessage::ExceededMaxPasswordLength(64).to_str(), "Password cannot exceed 64 characters");
    assert_eq!(ErrorMessage::ExceededMaxPasswordLength(7).to_str(), "Password cannot exceed 7 characters");
    assert_eq!(ErrorMessage::InvalidToken.to_str(), "Invalid token");
    assert_eq!(ErrorMessage::TokenNotProvided.to_str(), "Token not provided");
    assert_eq!(ErrorMessage::PermissionDenied.to_str(), "Permission denied");
    assert_eq!(ErrorMessage::UserNoLongerExist.to_str(), "User no longer exist");
    assert_eq!(ErrorMessage::EmailExist.to_str(), "Email already exist");
}

#[test]
fn constructors_set_status() {
    assert_eq!(HttpError::new("m".to_string(), 418).status, 418);
    assert_eq!(HttpError::server_error("m".to_string()).status, 500);
    assert_eq!(HttpError::permission_denied("m".to_string()).status, 403);
    assert_eq!(HttpError::bad_request("m".to_string()).status, 400);
    assert_eq!(HttpError::unauthorized("m".to_string()).status, 401);
    let e = HttpError::uqique_constraint_voilation(ErrorMessage::EmailExist.to_str());
    assert_eq!((e.status, e.message.as_str()), (409, "Email already exist"));
}

#[test]
fn response_parts_keep_known_status() {
    let (code, body) = HttpError::permission_denied("Permission denied".to_string()).into_response_parts();
    assert_eq!(code, 403);
    assert_eq!(body.status, "fail");
    assert_eq!(body.message, "Permission denied");
}

#[test]
fn response_parts_turn_unknown_status_into_server_error() {
    let (code, body) = HttpError::new("teapot".to_string(), 418).into_response_parts();
    assert_eq!(code, 500);
    assert_eq!(body.status, "error");
    assert_eq!(body.message, "Server error, Please try again later");
}

#[test]
fn role_names_are_lowercase() {
    assert_eq!(UserRole::Admin.to_str(), "admin");
    assert_eq!(UserRole::Moderator.to_str(), "moderator");
    assert_eq!(UserRole::User.to_str(), "user");
}

#[test]
fn config_uses_default_port() {
    let c = Config::from_parts("postgres://x".to_string(), "k".to_string(), 60);
    assert_eq!(c.port, 8000);
    assert_eq!(c.jwt_maxage, 60);
}
