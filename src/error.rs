use vstd::prelude::*;
use crate::credential::CatalogError;
use crate::library::LibraryError;
use crate::query::{decimal, decimal_text};
use crate::user::{UserError, hyphenated_uuid, uuid_text};

verus! {

/// An error as the web layer reports it.
#[derive(Debug)]
pub enum AppError {
    InternalServerError(String),
    BadRequest(String),
    NotFound(String),
    Unauthorized(String),
    Conflict(String),
}

/// Why a request could not be authenticated.
#[derive(Clone, Copy, Debug, PartialEq, Eq, Structural)]
pub enum AuthError {
    WrongCredentials,
    MissingCredentials,
    TokenCreation,
    InvalidToken,
}

/// The text shown for every internal failure, whatever its cause.
pub const INTERNAL_MESSAGE: &'static str = "Internal Server Error";

impl AppError {
    /// The HTTP status of the error.
    pub fn status_code(&self) -> (r: u16)
        ensures
            r == match self {
                AppError::InternalServerError(_) => 500u16,
                AppError::BadRequest(_) => 400u16,
                AppError::NotFound(_) => 404u16,
                AppError::Unauthorized(_) => 401u16,
                AppError::Conflict(_) => 409u16,
            },
    {
        match self {
            AppError::InternalServerError(_) => 500,
            AppError::BadRequest(_) => 400,
            AppError::NotFound(_) => 404,
            AppError::Unauthorized(_) => 401,
            AppError::Conflict(_) => 409,
        }
    }

    /// The message shown to the client: the error's own text, but never the
    /// cause of an internal failure.
    pub fn message(&self) -> (r: String)
        ensures
            r@ == match self {
                AppError::InternalServerError(_) => INTERNAL_MESSAGE@,
                AppError::BadRequest(m) => m@,
                AppError::NotFound(m) => m@,
                AppError::Unauthorized(m) => m@,
                AppError::Conflict(m) => m@,
            },
    {
        match self {
            AppError::InternalServerError(_) => String::from_str(INTERNAL_MESSAGE),
            AppError::BadRequest(m) => m.clone(),
            AppError::NotFound(m) => m.clone(),
            AppError::Unauthorized(m) => m.clone(),
            AppError::Conflict(m) => m.clone(),
        }
    }

    /// A refused library operation: both kinds are reported as not found.
    pub fn from_library_error(e: LibraryError) -> (r: AppError)
        ensures
            e matches LibraryError::GameNotFound(id) ==> (r matches AppError::NotFound(m) && m@
                == "Game with id "@ + decimal(id as int) + " not found"@),
            e matches LibraryError::EntryNotFound(_) ==> (r matches AppError::NotFound(m) && m@
                == "Game not found in library"@),
    {
        match e {
            LibraryError::GameNotFound(id) => {
                let mut m = String::from_str("Game with id ");
                let t = decimal_text(id);
                m.append(t.as_str());
                m.append(" not found");
                AppError::NotFound(m)
            },
            LibraryError::EntryNotFound(_) => AppError::NotFound(
                String::from_str("Game not found in library"),
            ),
        }
    }

    /// A refused user operation: a taken e-mail is a conflict, a failed hash
    /// an internal failure.
    pub fn from_user_error(e: UserError) -> (r: AppError)
        ensures
            e matches UserError::Conflict(m) ==> (r matches AppError::Conflict(n) && n@ == m@),
            e matches UserError::PasswordHashing ==> (r matches AppError::InternalServerError(_)),
    {
        match e {
            UserError::Conflict(m) => AppError::Conflict(m),
            UserError::PasswordHashing => AppError::InternalServerError(
                String::from_str("password hashing failed"),
            ),
        }
    }

    /// A failed catalog request is an internal failure; its cause is kept
    /// for the log.
    pub fn from_catalog_error(e: CatalogError) -> (r: AppError)
        ensures
            r matches AppError::InternalServerError(_),
    {
        match e {
            CatalogError::Credential(m) => AppError::InternalServerError(m),
            CatalogError::CredentialStatus(_) => AppError::InternalServerError(
                String::from_str("the token endpoint refused the credentials"),
            ),
            CatalogError::Transport(m) => AppError::InternalServerError(m),
            CatalogError::AuthExpired => AppError::InternalServerError(
                String::from_str("the catalog rejected the token"),
            ),
            CatalogError::Upstream { status: _, body } => AppError::InternalServerError(body),
            CatalogError::Decode { cause, raw_body: _ } => AppError::InternalServerError(cause),
        }
    }
}

/// Lets an authenticated user reach only their own library: `auth_user_id`
/// is the id that the session token names, `requested_user_id` the owner of
/// the library asked for.
pub fn check_authorization(auth_user_id: &str, requested_user_id: u128) -> (r: Result<(), AppError>)
    ensures
        r is Ok <==> auth_user_id@ == hyphenated_uuid(requested_user_id as nat),
        r matches Err(e) ==> (e matches AppError::Unauthorized(m) && m@ == "User "@ + auth_user_id@
            + " is not authorized to access library of user "@ + hyphenated_uuid(
            requested_user_id as nat,
        )),
{
    let requested = uuid_text(requested_user_id);
    let caller = String::from_str(auth_user_id);
    if caller == requested {
        Ok(())
    } else {
        let mut m = String::from_str("User ");
        m.append(auth_user_id);
        m.append(" is not authorized to access library of user ");
        m.append(requested.as_str());
        Err(AppError::Unauthorized(m))
    }
}

impl AuthError {
    /// The HTTP status of the error.
    pub fn status_code(&self) -> (r: u16)
        ensures
            r == match self {
                AuthError::WrongCredentials => 401u16,
                AuthError::MissingCredentials => 400u16,
                AuthError::TokenCreation => 500u16,
                AuthError::InvalidToken => 401u16,
            },
    {
        match self {
            AuthError::WrongCredentials => 401,
            AuthError::MissingCredentials => 400,
            AuthError::TokenCreation => 500,
            AuthError::InvalidToken => 401,
        }
    }

    /// The message shown to the client.
    pub fn message(&self) -> (r: String)
        ensures
            r@ == match self {
                AuthError::WrongCredentials => "Wrong credentials"@,
                AuthError::MissingCredentials => "Missing credentials"@,
                AuthError::TokenCreation => "Token creation error"@,
                AuthError::InvalidToken => "Invalid token"@,
            },
    {
        match self {
            AuthError::WrongCredentials => String::from_str("Wrong credentials"),
            AuthError::MissingCredentials => String::from_str("Missing credentials"),
            AuthError::TokenCreation => String::from_str("Token creation error"),
            AuthError::InvalidToken => String::from_str("Invalid token"),
        }
    }
}

} // verus!
