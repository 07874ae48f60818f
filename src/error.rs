use vstd::prelude::*;
use vstd::string::StringExecFns;

verus! {

/// Decimal digits of `n`, most significant first, with no sign or padding.
pub open spec fn decimal(n: nat) -> Seq<char>
    decreases n,
{
    let d = digit(n);
    if n < 10 {
        seq![d]
    } else {
        decimal(n / 10).push(d)
    }
}

/// The decimal digit of `d % 10`.
pub open spec fn digit(d: nat) -> char {
    ((d % 10) as u8 + 48u8) as char
}

fn digit_text(d: usize) -> (r: &'static str)
    requires
        d < 10,
    ensures
        r@ == seq![digit(d as nat)],
{
    proof {
        reveal_strlit("0");
        reveal_strlit("1");
        reveal_strlit("2");
        reveal_strlit("3");
        reveal_strlit("4");
        reveal_strlit("5");
        reveal_strlit("6");
        reveal_strlit("7");
        reveal_strlit("8");
        reveal_strlit("9");
    }
    if d == 0 {
        "0"
    } else if d == 1 {
        "1"
    } else if d == 2 {
        "2"
    } else if d == 3 {
        "3"
    } else if d == 4 {
        "4"
    } else if d == 5 {
        "5"
    } else if d == 6 {
        "6"
    } else if d == 7 {
        "7"
    } else if d == 8 {
        "8"
    } else {
        "9"
    }
}

/// `n` written in decimal.
fn decimal_text(n: usize) -> (r: String)
    ensures
        r@ == decimal(n as nat),
    decreases n,
{
    if n < 10 {
        digit_text(n).to_owned()
    } else {
        let mut s = decimal_text(n / 10);
        s.append(digit_text(n % 10));
        s
    }
}

/// The JSON body of a rejected request: `{status, message}`.
pub struct ErrorResponse {
    pub status: String,
    pub message: String,
}

impl ErrorResponse {
    /// A client-facing failure body, with status word `fail`.
    pub fn fail(message: String) -> (r: ErrorResponse)
        ensures
            r.status@ == "fail"@,
            r.message@ == message@,
    {
        ErrorResponse { status: "fail".to_owned(), message }
    }
}

/// The failure kinds of the authentication subsystem.
#[derive(Debug, Clone, Copy, PartialEq, Eq, Structural)]
pub enum ErrorMessage {
    EmptyPassword,
    ExceededMaxPasswordLength(usize),
    HashingError,
    InvalidHashFormat,
    InvalidToken,
    ServerError,
    WrongCredentials,
    EmailExist,
    UserNoLongerExist,
    TokenNotProvided,
    PermissionDenied,
}

impl ErrorMessage {
    /// The stable, client-facing text of each failure kind.
    pub open spec fn text(self) -> Seq<char> {
        match self {
            ErrorMessage::EmptyPassword => "Password cannot be empty"@,
            ErrorMessage::ExceededMaxPasswordLength(max_length) => "Password cannot exceed "@
                + decimal(max_length as nat) + " characters"@,
            ErrorMessage::HashingError => "Error hashing password"@,
            ErrorMessage::InvalidHashFormat => "Invalid hash format"@,
            ErrorMessage::InvalidToken => "Invalid token"@,
            ErrorMessage::ServerError => "Server error, Please try again later"@,
            ErrorMessage::WrongCredentials => "Email or password is incorrect"@,
            ErrorMessage::EmailExist => "Email already exist"@,
            ErrorMessage::UserNoLongerExist => "User no longer exist"@,
            ErrorMessage::TokenNotProvided => "Token not provided"@,
            ErrorMessage::PermissionDenied => "Permission denied"@,
        }
    }

    pub fn to_str(&self) -> (r: String)
        ensures
            r@ == self.text(),
    {
        match self {
            ErrorMessage::EmptyPassword => "Password cannot be empty".to_owned(),
            ErrorMessage::ExceededMaxPasswordLength(max_length) => {
                let digits = decimal_text(*max_length);
                let mut s = "Password cannot exceed ".to_owned();
                s.append(digits.as_str());
                s.append(" characters");
                s
            },
            ErrorMessage::HashingError => "Error hashing password".to_owned(),
            ErrorMessage::InvalidHashFormat => "Invalid hash format".to_owned(),
            ErrorMessage::InvalidToken => "Invalid token".to_owned(),
            ErrorMessage::ServerError => "Server error, Please try again later".to_owned(),
            ErrorMessage::WrongCredentials => "Email or password is incorrect".to_owned(),
            ErrorMessage::EmailExist => "Email already exist".to_owned(),
            ErrorMessage::UserNoLongerExist => "User no longer exist".to_owned(),
            ErrorMessage::TokenNotProvided => "Token not provided".to_owned(),
            ErrorMessage::PermissionDenied => "Permission denied".to_owned(),
        }
    }
}

/// An error carried back to the client: an HTTP status code and a message.
#[derive(Debug, Clone)]
pub struct HttpError {
    pub status: u16,
    pub message: String,
}

/// The status codes that an outbound error keeps as they are.
pub open spec fn is_known_status(status: u16) -> bool {
    status == 400 || status == 401 || status == 403 || status == 409 || status == 500
}

impl HttpError {
    pub fn new(message: String, status: u16) -> (r: HttpError)
        ensures
            r.status == status,
            r.message@ == message@,
    {
        HttpError { status, message }
    }

    pub fn server_error(message: String) -> (r: HttpError)
        ensures
            r.status == 500,
            r.message@ == message@,
    {
        HttpError { status: 500, message }
    }

    pub fn permission_denied(message: String) -> (r: HttpError)
        ensures
            r.status == 403,
            r.message@ == message@,
    {
        HttpError { status: 403, message }
    }

    pub fn bad_request(message: String) -> (r: HttpError)
        ensures
            r.status == 400,
            r.message@ == message@,
    {
        HttpError { status: 400, message }
    }

    pub fn unauthorized(message: String) -> (r: HttpError)
        ensures
            r.status == 401,
            r.message@ == message@,
    {
        HttpError { status: 401, message }
    }

    pub fn uqique_constraint_voilation(message: String) -> (r: HttpError)
        ensures
            r.status == 409,
            r.message@ == message@,
    {
        HttpError { status: 409, message }
    }

    /// The status code and JSON body to send for this error. A known status
    /// keeps its code and message under status word `fail`; any other status
    /// becomes a 500 with status word `error` and the generic server message.
    pub fn into_response_parts(self) -> (r: (u16, ErrorResponse))
        ensures
            is_known_status(self.status) ==> r.0 == self.status && r.1.status@ == "fail"@
                && r.1.message@ == self.message@,
            !is_known_status(self.status) ==> r.0 == 500 && r.1.status@ == "error"@
                && r.1.message@ == ErrorMessage::ServerError.text(),
    {
        if self.status == 400 || self.status == 401 || self.status == 403 || self.status == 409
            || self.status == 500 {
            (self.status, ErrorResponse::fail(self.message))
        } else {
            let message = ErrorMessage::ServerError.to_str();
            (500, ErrorResponse { status: "error".to_owned(), message })
        }
    }
}

} // verus!
