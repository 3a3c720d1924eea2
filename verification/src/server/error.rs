//! Error types of the sandbox server and the responses they are reported with.

use vstd::prelude::*;
use vstd::string::StringExecFns;

verus! {

#[verifier::external_type_specification]
#[verifier::external_body]
pub struct ExIoError(std::io::Error);

/// Error returned when an unexpected internal error occurs
#[derive(Debug)]
pub enum MicrosandboxServerError {
    /// Error returned when the server fails to start
    StartError(String),
    /// Error returned when the server fails to stop
    StopError(String),
    /// Error returned when the server key fails to generate
    KeyGenError(String),
    /// Error returned when the server configuration fails
    ConfigError(String),
    /// Error returned when an I/O error occurs
    IoError(std::io::Error),
}

/// Represents all possible errors that can occur in the application
#[derive(Debug)]
pub enum ServerError {
    /// Error returned when authentication fails
    Authentication(AuthenticationError),
    /// Error returned when a user doesn't have permission to access a resource
    AuthorizationError(AuthorizationError),
    /// Error returned when a requested resource is not found
    NotFound(String),
    /// Error returned when a database operation fails
    DatabaseError(String),
    /// Error returned when request validation fails (e.g., invalid input format)
    ValidationError(ValidationError),
    /// Error returned when an unexpected internal error occurs
    InternalError(String),
}

/// Error code structure to be sent to frontend
#[derive(Clone, Copy, Debug, PartialEq, Eq, Structural)]
pub enum ErrorCode {
    /// Credentials provided don't match our records
    InvalidCredentials,
    /// A user attempts to login with an unconfirmed email
    EmailNotConfirmed,
    /// There have been too many failed login attempts
    TooManyLoginAttempts,
    /// An authentication token is invalid
    InvalidToken,
    /// An authentication token has expired
    ExpiredToken,
    /// A token is required but not provided
    TokenRequired,
    /// Attempting to register with an email that already exists
    EmailAlreadyExists,
    /// A user tries to sign in with password but should use Google
    UseGoogleLogin,
    /// A user tries to sign in with password but should use GitHub
    UseGithubLogin,
    /// A user tries to use OAuth but should use email/password
    UseEmailLogin,
    /// A user's email is not verified with their OAuth provider
    EmailNotVerified,
    /// Input fails validation rules
    InvalidInput,
    /// Password doesn't meet strength requirements
    PasswordTooWeak,
    /// Email format is invalid
    EmailInvalid,
    /// A confirmation token is invalid or has expired
    InvalidOrExpiredConfirmationToken,
    /// A user is denied access to a resource
    AccessDenied,
    /// A user doesn't have sufficient permissions for an action
    InsufficientPermissions,
    /// A requested resource cannot be found
    ResourceNotFound,
    /// A database operation fails
    DatabaseError,
    /// An unexpected server error occurs
    InternalServerError,
}

/// Represents different types of authentication failures
#[derive(Debug)]
pub enum AuthenticationError {
    /// Security-sensitive authentication failures that shouldn't reveal details
    InvalidCredentials(String),
    /// User-facing authentication errors that can be shown directly
    ClientError(String),
    /// Email not confirmed
    EmailNotConfirmed,
    /// Too many login attempts
    TooManyAttempts,
    /// Invalid or expired token
    InvalidToken(String),
    /// Email already registered
    EmailAlreadyExists,
    /// Should use Google login instead
    UseGoogleLogin,
    /// Should use GitHub login instead
    UseGithubLogin,
    /// Should use email/password login instead
    UseEmailLogin,
    /// Email not verified with provider
    EmailNotVerified,
}

/// Represents validation errors
#[derive(Debug)]
pub enum ValidationError {
    /// Generic validation error
    InvalidInput(String),
    /// Password not strong enough
    PasswordTooWeak(String),
    /// Email format invalid
    EmailInvalid(String),
    /// Invalid or expired confirmation token
    InvalidConfirmationToken,
}

/// Represents authorization errors
#[derive(Debug)]
pub enum AuthorizationError {
    /// Access denied
    AccessDenied(String),
    /// Insufficient permissions
    InsufficientPermissions(String),
}

/// The parts of the HTTP response that reports an error: status code, message
/// and the optional numeric error code for the frontend.
#[derive(Debug)]
pub struct ErrorResponse {
    /// HTTP status code.
    pub status: u16,
    /// The message in the body's `error` field.
    pub error: String,
    /// The number in the body's `code` field.
    pub code: Option<u32>,
}

//--------------------------------------------------------------------------------------------------
// Specifications
//--------------------------------------------------------------------------------------------------

/// The number that the frontend receives for each error code.
pub open spec fn code_number(c: ErrorCode) -> u32 {
    match c {
        ErrorCode::InvalidCredentials => 1001,
        ErrorCode::EmailNotConfirmed => 1002,
        ErrorCode::TooManyLoginAttempts => 1003,
        ErrorCode::InvalidToken => 1004,
        ErrorCode::ExpiredToken => 1005,
        ErrorCode::TokenRequired => 1006,
        ErrorCode::EmailAlreadyExists => 1007,
        ErrorCode::UseGoogleLogin => 1008,
        ErrorCode::UseGithubLogin => 1009,
        ErrorCode::UseEmailLogin => 1010,
        ErrorCode::EmailNotVerified => 1011,
        ErrorCode::InvalidInput => 2001,
        ErrorCode::PasswordTooWeak => 2002,
        ErrorCode::EmailInvalid => 2003,
        ErrorCode::InvalidOrExpiredConfirmationToken => 2004,
        ErrorCode::AccessDenied => 3001,
        ErrorCode::InsufficientPermissions => 3002,
        ErrorCode::ResourceNotFound => 4001,
        ErrorCode::DatabaseError => 5001,
        ErrorCode::InternalServerError => 5002,
    }
}

/// The text of an authentication error.
pub open spec fn authentication_text(e: AuthenticationError) -> Seq<char> {
    match e {
        AuthenticationError::InvalidCredentials(_) => "Invalid credentials"@,
        AuthenticationError::ClientError(s) => s@,
        AuthenticationError::EmailNotConfirmed => "Email not confirmed"@,
        AuthenticationError::TooManyAttempts => "Too many login attempts"@,
        AuthenticationError::InvalidToken(_) => "Invalid or expired token"@,
        AuthenticationError::EmailAlreadyExists => "Email already registered"@,
        AuthenticationError::UseGoogleLogin => "Use Google login"@,
        AuthenticationError::UseGithubLogin => "Use GitHub login"@,
        AuthenticationError::UseEmailLogin => "Use email/password login"@,
        AuthenticationError::EmailNotVerified => "Email not verified"@,
    }
}

/// The text of a validation error.
pub open spec fn validation_text(e: ValidationError) -> Seq<char> {
    match e {
        ValidationError::InvalidInput(s) => s@,
        ValidationError::PasswordTooWeak(_) => "Password is too weak"@,
        ValidationError::EmailInvalid(_) => "Email is invalid"@,
        ValidationError::InvalidConfirmationToken => "Invalid or expired confirmation token"@,
    }
}

/// The text of an authorization error.
pub open spec fn authorization_text(e: AuthorizationError) -> Seq<char> {
    match e {
        AuthorizationError::AccessDenied(_) => "Access denied"@,
        AuthorizationError::InsufficientPermissions(_) => "Insufficient permissions"@,
    }
}

/// The text of a server error.
pub open spec fn server_error_text(e: ServerError) -> Seq<char> {
    match e {
        ServerError::Authentication(a) => "Authentication failed: "@ + authentication_text(a),
        ServerError::AuthorizationError(a) => "Authorization failed: "@ + authorization_text(a),
        ServerError::NotFound(s) => "Resource not found: "@ + s@,
        ServerError::DatabaseError(s) => "Database error: "@ + s@,
        ServerError::ValidationError(v) => "Validation error: "@ + validation_text(v),
        ServerError::InternalError(s) => "Internal server error: "@ + s@,
    }
}

/// The status, message and code that report a server error.
pub open spec fn error_response_of(e: ServerError) -> (u16, Seq<char>, Option<u32>) {
    match e {
        ServerError::Authentication(a) => match a {
            AuthenticationError::InvalidCredentials(_) => (
                401,
                "Invalid credentials"@,
                Some(1001u32),
            ),
            AuthenticationError::ClientError(details) => (401, details@, None),
            AuthenticationError::EmailNotConfirmed => (401, "Email not confirmed"@, Some(1002u32)),
            AuthenticationError::TooManyAttempts => (
                429,
                "Too many login attempts, please try again later"@,
                Some(1003u32),
            ),
            AuthenticationError::InvalidToken(_) => (
                401,
                "Invalid or expired token"@,
                Some(1004u32),
            ),
            AuthenticationError::EmailAlreadyExists => (
                409,
                "Email already registered"@,
                Some(1007u32),
            ),
            AuthenticationError::UseGoogleLogin => (
                401,
                "This email is registered with Google. Please use 'Sign in with Google' instead."@,
                Some(1008u32),
            ),
            AuthenticationError::UseGithubLogin => (
                401,
                "This email is registered with GitHub. Please use 'Sign in with GitHub' instead."@,
                Some(1009u32),
            ),
            AuthenticationError::UseEmailLogin => (
                401,
                "This email is already registered. Please login with your password."@,
                Some(1010u32),
            ),
            AuthenticationError::EmailNotVerified => (
                401,
                "Email not verified with the provider"@,
                Some(1011u32),
            ),
        },
        ServerError::AuthorizationError(a) => match a {
            AuthorizationError::AccessDenied(_) => (403, "Access denied"@, Some(3001u32)),
            AuthorizationError::InsufficientPermissions(_) => (
                403,
                "Insufficient permissions"@,
                Some(3002u32),
            ),
        },
        ServerError::NotFound(details) => (404, details@, Some(4001u32)),
        ServerError::DatabaseError(_) => (500, "Internal server error"@, Some(5001u32)),
        ServerError::ValidationError(v) => match v {
            ValidationError::InvalidInput(details) => (400, details@, Some(2001u32)),
            ValidationError::PasswordTooWeak(details) => (400, details@, Some(2002u32)),
            ValidationError::EmailInvalid(details) => (400, details@, Some(2003u32)),
            ValidationError::InvalidConfirmationToken => (
                400,
                "Invalid or expired confirmation token"@,
                Some(2004u32),
            ),
        },
        ServerError::InternalError(_) => (500, "Internal server error"@, Some(5002u32)),
    }
}

/// Two errors of the same kind among those whose details are kept from the
/// client (database and internal errors, invalid credentials or token, denied
/// access, insufficient permissions), whatever their details.
pub open spec fn same_hidden_kind(e1: ServerError, e2: ServerError) -> bool {
    match (e1, e2) {
        (ServerError::DatabaseError(_), ServerError::DatabaseError(_)) => true,
        (ServerError::InternalError(_), ServerError::InternalError(_)) => true,
        (
            ServerError::Authentication(AuthenticationError::InvalidCredentials(_)),
            ServerError::Authentication(AuthenticationError::InvalidCredentials(_)),
        ) => true,
        (
            ServerError::Authentication(AuthenticationError::InvalidToken(_)),
            ServerError::Authentication(AuthenticationError::InvalidToken(_)),
        ) => true,
        (
            ServerError::AuthorizationError(AuthorizationError::AccessDenied(_)),
            ServerError::AuthorizationError(AuthorizationError::AccessDenied(_)),
        ) => true,
        (
            ServerError::AuthorizationError(AuthorizationError::InsufficientPermissions(_)),
            ServerError::AuthorizationError(AuthorizationError::InsufficientPermissions(_)),
        ) => true,
        _ => false,
    }
}

/// The details of a database or internal error, of invalid credentials or an
/// invalid token, and of an authorization failure never reach the client: two
/// such errors of the same kind are answered alike, with a fixed status,
/// message and code.
pub proof fn lemma_error_details_hidden(e1: ServerError, e2: ServerError)
    requires
        same_hidden_kind(e1, e2),
    ensures
        error_response_of(e1) == error_response_of(e2),
        e1 is DatabaseError ==> error_response_of(e1) == (500u16, "Internal server error"@, Some(5001u32)),
        e1 is InternalError ==> error_response_of(e1) == (500u16, "Internal server error"@, Some(5002u32)),
        e1 matches ServerError::Authentication(AuthenticationError::InvalidCredentials(_))
            ==> error_response_of(e1) == (401u16, "Invalid credentials"@, Some(1001u32)),
        e1 matches ServerError::Authentication(AuthenticationError::InvalidToken(_))
            ==> error_response_of(e1) == (401u16, "Invalid or expired token"@, Some(1004u32)),
        e1 matches ServerError::AuthorizationError(AuthorizationError::AccessDenied(_))
            ==> error_response_of(e1) == (403u16, "Access denied"@, Some(3001u32)),
        e1 matches ServerError::AuthorizationError(AuthorizationError::InsufficientPermissions(_))
            ==> error_response_of(e1) == (403u16, "Insufficient permissions"@, Some(3002u32)),
{
}

//--------------------------------------------------------------------------------------------------
// Methods
//--------------------------------------------------------------------------------------------------

fn text(s: &str) -> (r: String)
    ensures
        r@ == s@,
{
    String::from_str(s)
}

fn response(status: u16, error: String, code: Option<u32>) -> (r: ErrorResponse)
    ensures
        r.status == status,
        r.error == error,
        r.code == code,
{
    ErrorResponse { status, error, code }
}

impl ErrorCode {
    /// The number that the frontend receives for this code.
    pub fn as_u32(&self) -> (r: u32)
        ensures
            r == code_number(*self),
    {
        match self {
            ErrorCode::InvalidCredentials => 1001,
            ErrorCode::EmailNotConfirmed => 1002,
            ErrorCode::TooManyLoginAttempts => 1003,
            ErrorCode::InvalidToken => 1004,
            ErrorCode::ExpiredToken => 1005,
            ErrorCode::TokenRequired => 1006,
            ErrorCode::EmailAlreadyExists => 1007,
            ErrorCode::UseGoogleLogin => 1008,
            ErrorCode::UseGithubLogin => 1009,
            ErrorCode::UseEmailLogin => 1010,
            ErrorCode::EmailNotVerified => 1011,
            ErrorCode::InvalidInput => 2001,
            ErrorCode::PasswordTooWeak => 2002,
            ErrorCode::EmailInvalid => 2003,
            ErrorCode::InvalidOrExpiredConfirmationToken => 2004,
            ErrorCode::AccessDenied => 3001,
            ErrorCode::InsufficientPermissions => 3002,
            ErrorCode::ResourceNotFound => 4001,
            ErrorCode::DatabaseError => 5001,
            ErrorCode::InternalServerError => 5002,
        }
    }
}

impl AuthenticationError {
    /// The text of the error.
    pub fn to_string(&self) -> (r: String)
        ensures
            r@ == authentication_text(*self),
    {
        match self {
            AuthenticationError::InvalidCredentials(_) => text("Invalid credentials"),
            AuthenticationError::ClientError(s) => s.clone(),
            AuthenticationError::EmailNotConfirmed => text("Email not confirmed"),
            AuthenticationError::TooManyAttempts => text("Too many login attempts"),
            AuthenticationError::InvalidToken(_) => text("Invalid or expired token"),
            AuthenticationError::EmailAlreadyExists => text("Email already registered"),
            AuthenticationError::UseGoogleLogin => text("Use Google login"),
            AuthenticationError::UseGithubLogin => text("Use GitHub login"),
            AuthenticationError::UseEmailLogin => text("Use email/password login"),
            AuthenticationError::EmailNotVerified => text("Email not verified"),
        }
    }
}

impl ValidationError {
    /// The text of the error.
    pub fn to_string(&self) -> (r: String)
        ensures
            r@ == validation_text(*self),
    {
        match self {
            ValidationError::InvalidInput(s) => s.clone(),
            ValidationError::PasswordTooWeak(_) => text("Password is too weak"),
            ValidationError::EmailInvalid(_) => text("Email is invalid"),
            ValidationError::InvalidConfirmationToken => text(
                "Invalid or expired confirmation token",
            ),
        }
    }
}

impl AuthorizationError {
    /// The text of the error.
    pub fn to_string(&self) -> (r: String)
        ensures
            r@ == authorization_text(*self),
    {
        match self {
            AuthorizationError::AccessDenied(_) => text("Access denied"),
            AuthorizationError::InsufficientPermissions(_) => text("Insufficient permissions"),
        }
    }
}

impl ServerError {
    /// The text of the error.
    pub fn to_string(&self) -> (r: String)
        ensures
            r@ == server_error_text(*self),
    {
        match self {
            ServerError::Authentication(a) => text("Authentication failed: ").concat(
                a.to_string().as_str(),
            ),
            ServerError::AuthorizationError(a) => text("Authorization failed: ").concat(
                a.to_string().as_str(),
            ),
            ServerError::NotFound(s) => text("Resource not found: ").concat(s.as_str()),
            ServerError::DatabaseError(s) => text("Database error: ").concat(s.as_str()),
            ServerError::ValidationError(v) => text("Validation error: ").concat(
                v.to_string().as_str(),
            ),
            ServerError::InternalError(s) => text("Internal server error: ").concat(s.as_str()),
        }
    }

    /// The HTTP status code, message and frontend error code that report this
    /// error. Security-sensitive details are not revealed.
    pub fn into_response(self) -> (r: ErrorResponse)
        ensures
            (r.status, r.error@, r.code) == error_response_of(self),
    {
        match self {
            ServerError::Authentication(auth_error) => match auth_error {
                AuthenticationError::InvalidCredentials(_) => response(
                    401,
                    text("Invalid credentials"),
                    Some(ErrorCode::InvalidCredentials.as_u32()),
                ),
                AuthenticationError::ClientError(details) => response(401, details, None),
                AuthenticationError::EmailNotConfirmed => response(
                    401,
                    text("Email not confirmed"),
                    Some(ErrorCode::EmailNotConfirmed.as_u32()),
                ),
                AuthenticationError::TooManyAttempts => response(
                    429,
                    text("Too many login attempts, please try again later"),
                    Some(ErrorCode::TooManyLoginAttempts.as_u32()),
                ),
                AuthenticationError::InvalidToken(_) => response(
                    401,
                    text("Invalid or expired token"),
                    Some(ErrorCode::InvalidToken.as_u32()),
                ),
                AuthenticationError::EmailAlreadyExists => response(
                    409,
                    text("Email already registered"),
                    Some(ErrorCode::EmailAlreadyExists.as_u32()),
                ),
                AuthenticationError::UseGoogleLogin => response(
                    401,
                    text(
                        "This email is registered with Google. Please use 'Sign in with Google' instead.",
                    ),
                    Some(ErrorCode::UseGoogleLogin.as_u32()),
                ),
                AuthenticationError::UseGithubLogin => response(
                    401,
                    text(
                        "This email is registered with GitHub. Please use 'Sign in with GitHub' instead.",
                    ),
                    Some(ErrorCode::UseGithubLogin.as_u32()),
                ),
                AuthenticationError::UseEmailLogin => response(
                    401,
                    text("This email is already registered. Please login with your password."),
                    Some(ErrorCode::UseEmailLogin.as_u32()),
                ),
                AuthenticationError::EmailNotVerified => response(
                    401,
                    text("Email not verified with the provider"),
                    Some(ErrorCode::EmailNotVerified.as_u32()),
                ),
            },
            ServerError::AuthorizationError(auth_error) => match auth_error {
                AuthorizationError::AccessDenied(_) => response(
                    403,
                    text("Access denied"),
                    Some(ErrorCode::AccessDenied.as_u32()),
                ),
                AuthorizationError::InsufficientPermissions(_) => response(
                    403,
                    text("Insufficient permissions"),
                    Some(ErrorCode::InsufficientPermissions.as_u32()),
                ),
            },
            ServerError::NotFound(details) => response(
                404,
                details,
                Some(ErrorCode::ResourceNotFound.as_u32()),
            ),
            ServerError::DatabaseError(_) => response(
                500,
                text("Internal server error"),
                Some(ErrorCode::DatabaseError.as_u32()),
            ),
            ServerError::ValidationError(validation_error) => match validation_error {
                ValidationError::InvalidInput(details) => response(
                    400,
                    details,
                    Some(ErrorCode::InvalidInput.as_u32()),
                ),
                ValidationError::PasswordTooWeak(details) => response(
                    400,
                    details,
                    Some(ErrorCode::PasswordTooWeak.as_u32()),
                ),
                ValidationError::EmailInvalid(details) => response(
                    400,
                    details,
                    Some(ErrorCode::EmailInvalid.as_u32()),
                ),
                ValidationError::InvalidConfirmationToken => response(
                    400,
                    text("Invalid or expired confirmation token"),
                    Some(ErrorCode::InvalidOrExpiredConfirmationToken.as_u32()),
                ),
            },
            ServerError::InternalError(_) => response(
                500,
                text("Internal server error"),
                Some(ErrorCode::InternalServerError.as_u32()),
            ),
        }
    }
}

/// Calls `ToString::to_string` on an I/O error. The text comes from the operating
/// system, so nothing is claimed of it.
#[verifier::external_body]
fn io_error_text(e: &std::io::Error) -> String {
    e.to_string()
}

impl MicrosandboxServerError {
    /// The text of the error. For an I/O error it is the operating system's text.
    pub fn to_string(&self) -> (r: String)
        ensures
            match self {
                MicrosandboxServerError::StartError(s) => r@ == "Server failed to start: "@ + s@,
                MicrosandboxServerError::StopError(s) => r@ == "Server failed to stop: "@ + s@,
                MicrosandboxServerError::KeyGenError(s) => r@ == "Server key failed to generate: "@
                    + s@,
                MicrosandboxServerError::ConfigError(s) => r@ == "Server configuration failed: "@
                    + s@,
                MicrosandboxServerError::IoError(_) => true,
            },
    {
        match self {
            MicrosandboxServerError::StartError(s) => text("Server failed to start: ").concat(
                s.as_str(),
            ),
            MicrosandboxServerError::StopError(s) => text("Server failed to stop: ").concat(
                s.as_str(),
            ),
            MicrosandboxServerError::KeyGenError(s) => text("Server key failed to generate: ").concat(
                s.as_str(),
            ),
            MicrosandboxServerError::ConfigError(s) => text("Server configuration failed: ").concat(
                s.as_str(),
            ),
            MicrosandboxServerError::IoError(e) => io_error_text(e),
        }
    }
}

} // verus!
