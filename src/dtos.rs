use vstd::prelude::*;
use validator::ValidateEmail;
use crate::password::{password_rule, validate_password};

verus! {

/// `s` is an e-mail address by the HTML5 rule that `validator` applies.
pub uninterp spec fn email_valid(s: Seq<char>) -> bool;

/// Relies on `validator::ValidateEmail::validate_email` for `String`, which
/// refuses the empty string and depends on the text alone.
#[verifier::external_body]
fn is_email(s: &str) -> (r: bool)
    ensures
        r == email_valid(s@),
        s@.len() == 0 ==> !r,
{
    s.to_string().validate_email()
}

/// The e-mail rule of request bodies: present, then well formed.
pub open spec fn email_rule(email: Seq<char>) -> Option<Seq<char>> {
    if email.len() == 0 {
        Some("Email is required"@)
    } else if !email_valid(email) {
        Some("Invalid email"@)
    } else {
        None
    }
}

fn validate_email(email: &str) -> (r: Result<(), String>)
    ensures
        email_rule(email@) matches Some(m) ==> (r matches Err(e) && e@ == m),
        email_rule(email@) is None ==> r is Ok,
{
    if email.is_empty() {
        return Err("Email is required".to_owned());
    }
    if !is_email(email) {
        return Err("Invalid email".to_owned());
    }
    Ok(())
}

/// The first rule a registration body breaks, field by field; `None` when it
/// is acceptable.
pub open spec fn registration_error(name: Seq<char>, email: Seq<char>, password: Seq<char>, confirm: Seq<char>) -> Option<Seq<char>> {
    if name.len() == 0 {
        Some("Name is required"@)
    } else if email_rule(email) is Some {
        email_rule(email)
    } else if password_rule(password) is Some {
        password_rule(password)
    } else if confirm.len() == 0 {
        Some("Confirm Password is required"@)
    } else if confirm != password {
        Some("Passwords do not match"@)
    } else {
        None
    }
}

/// The first rule a login body breaks; `None` when it is acceptable.
pub open spec fn login_error(email: Seq<char>, password: Seq<char>) -> Option<Seq<char>> {
    if email_rule(email) is Some {
        email_rule(email)
    } else if password.len() == 0 {
        Some("Password is required"@)
    } else {
        None
    }
}

/// A registration request body.
#[derive(Debug, Clone)]
pub struct RegisterUserDto {
    pub name: String,
    pub email: String,
    pub password: String,
    pub confirm_password: String,
}

impl RegisterUserDto {
    /// Checks the body; on failure, the message of the first rule broken.
    pub fn validate(&self) -> (r: Result<(), String>)
        ensures
            registration_error(self.name@, self.email@, self.password@, self.confirm_password@) matches Some(m)
                ==> (r matches Err(e) && e@ == m),
            registration_error(self.name@, self.email@, self.password@, self.confirm_password@) is None
                ==> r is Ok,
    {
        if self.name.as_str().is_empty() {
            return Err("Name is required".to_owned());
        }
        validate_email(self.email.as_str())?;
        validate_password(self.password.as_str())?;
        if self.confirm_password.as_str().is_empty() {
            return Err("Confirm Password is required".to_owned());
        }
        if self.confirm_password != self.password {
            return Err("Passwords do not match".to_owned());
        }
        Ok(())
    }
}

/// A login request body.
#[derive(Debug, Clone)]
pub struct LoginUserDto {
    pub email: String,
    pub password: String,
}

impl LoginUserDto {
    /// Checks the body; on failure, the message of the first rule broken.
    pub fn validate(&self) -> (r: Result<(), String>)
        ensures
            login_error(self.email@, self.password@) matches Some(m) ==> (r matches Err(e) && e@ == m),
            login_error(self.email@, self.password@) is None ==> r is Ok,
    {
        validate_email(self.email.as_str())?;
        if self.password.as_str().is_empty() {
            return Err("Password is required".to_owned());
        }
        Ok(())
    }
}

/// Paging parameters of a listing request.
#[derive(Debug, Clone, Copy)]
pub struct RequestQueryDto {
    pub page: Option<usize>,
    pub limit: Option<usize>,
}

/// The body answering a successful login.
#[derive(Debug, Clone)]
pub struct UserLoginResonseDto {
    pub status: String,
    pub token: String,
}

/// A plain `{status, message}` body.
#[derive(Debug, Clone)]
pub struct Response {
    pub status: String,
    pub message: String,
}

} // verus!
