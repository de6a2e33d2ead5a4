//! The errors that a route may answer with, and how each is shown.

use crate::auth::error::AuthenticationError;
use vstd::prelude::*;
use vstd::string::*;

verus! {

/// Why a request failed. A variant that stands for the failure of another
/// part of the system keeps the message of that failure.
#[derive(Clone, Debug, PartialEq, Eq)]
pub enum ApiError {
    Env(String),
    FileHosting(String),
    Database(String),
    SqlxDatabase(String),
    Xml(String),
    Json(String),
    Authentication(AuthenticationError),
    CustomAuthentication(String),
    InvalidInput(String),
    Validation(String),
    Search(String),
    Indexing(String),
    Analytics(String),
    Payments(String),
    Discord(String),
    Turnstile,
    Decoding(String),
    ImageParse(String),
    PasswordHashing(String),
    PasswordStrengthCheck(String),
}

/// What is sent back for a failed request: the HTTP status, a word for
/// programs and a sentence for people.
#[derive(Clone, Debug, PartialEq, Eq)]
pub struct ErrorResponse {
    pub status: u16,
    pub error: &'static str,
    pub description: String,
}

pub const BAD_REQUEST: u16 = 400;

pub const UNAUTHORIZED: u16 = 401;

pub const GONE: u16 = 410;

pub const FAILED_DEPENDENCY: u16 = 424;

pub const INTERNAL_SERVER_ERROR: u16 = 500;

/// What callers of the retired first version of the API are told.
pub open spec fn deprecated_api_text() -> Seq<char> {
    "You are using an application that uses an outdated version of Modrinth's API. Please either update it or switch to another application. For developers: https://docs.modrinth.com/docs/migrations/v1-to-v2/"@
}

impl ErrorResponse {
    /// The answer to every call of the retired first version of the API:
    /// the resource is gone for good.
    pub fn api_deprecated() -> (response: ErrorResponse)
        ensures
            response.status == GONE,
            response.error@ == "api_deprecated"@,
            response.description@ == deprecated_api_text(),
    {
        ErrorResponse {
            status: GONE,
            error: "api_deprecated",
            description: "You are using an application that uses an outdated version of Modrinth's API. Please either update it or switch to another application. For developers: https://docs.modrinth.com/docs/migrations/v1-to-v2/".to_owned(),
        }
    }
}

impl ApiError {
    /// The HTTP status of each failure. Whatever failed in authentication is
    /// unauthorized, whichever way it failed.
    pub open spec fn status(self) -> u16 {
        match self {
            ApiError::Env(_) => INTERNAL_SERVER_ERROR,
            ApiError::Database(_) => INTERNAL_SERVER_ERROR,
            ApiError::SqlxDatabase(_) => INTERNAL_SERVER_ERROR,
            ApiError::Authentication(_) => UNAUTHORIZED,
            ApiError::CustomAuthentication(_) => UNAUTHORIZED,
            ApiError::Xml(_) => INTERNAL_SERVER_ERROR,
            ApiError::Json(_) => BAD_REQUEST,
            ApiError::Search(_) => INTERNAL_SERVER_ERROR,
            ApiError::Indexing(_) => INTERNAL_SERVER_ERROR,
            ApiError::FileHosting(_) => INTERNAL_SERVER_ERROR,
            ApiError::InvalidInput(_) => BAD_REQUEST,
            ApiError::Validation(_) => BAD_REQUEST,
            ApiError::Analytics(_) => FAILED_DEPENDENCY,
            ApiError::Payments(_) => FAILED_DEPENDENCY,
            ApiError::Discord(_) => FAILED_DEPENDENCY,
            ApiError::Turnstile => BAD_REQUEST,
            ApiError::Decoding(_) => BAD_REQUEST,
            ApiError::ImageParse(_) => BAD_REQUEST,
            ApiError::PasswordHashing(_) => INTERNAL_SERVER_ERROR,
            ApiError::PasswordStrengthCheck(_) => BAD_REQUEST,
        }
    }

    /// The word by which a program tells the kind of failure.
    pub open spec fn name(self) -> Seq<char> {
        match self {
            ApiError::Env(_) => "environment_error"@,
            ApiError::SqlxDatabase(_) => "database_error"@,
            ApiError::Database(_) => "database_error"@,
            ApiError::Authentication(_) => "unauthorized"@,
            ApiError::CustomAuthentication(_) => "unauthorized"@,
            ApiError::Xml(_) => "xml_error"@,
            ApiError::Json(_) => "json_error"@,
            ApiError::Search(_) => "search_error"@,
            ApiError::Indexing(_) => "indexing_error"@,
            ApiError::FileHosting(_) => "file_hosting_error"@,
            ApiError::InvalidInput(_) => "invalid_input"@,
            ApiError::Validation(_) => "invalid_input"@,
            ApiError::Analytics(_) => "analytics_error"@,
            ApiError::Payments(_) => "payments_error"@,
            ApiError::Discord(_) => "discord_error"@,
            ApiError::Turnstile => "turnstile_error"@,
            ApiError::Decoding(_) => "decoding_error"@,
            ApiError::ImageParse(_) => "invalid_image"@,
            ApiError::PasswordHashing(_) => "password_hashing_error"@,
            ApiError::PasswordStrengthCheck(_) => "strength_check_error"@,
        }
    }

    /// The words that open the description of each failure.
    pub open spec fn heading(self) -> Seq<char> {
        match self {
            ApiError::Env(_) => "Environment Error"@,
            ApiError::FileHosting(_) => "Error while uploading file"@,
            ApiError::Database(_) => "Database Error: "@,
            ApiError::SqlxDatabase(_) => "Database Error: "@,
            ApiError::Xml(_) => "Internal server error: "@,
            ApiError::Json(_) => "Deserialization error: "@,
            ApiError::Authentication(_) => "Authentication Error: "@,
            ApiError::CustomAuthentication(_) => "Authentication Error: "@,
            ApiError::InvalidInput(_) => "Invalid Input: "@,
            ApiError::Validation(_) => "Error while validating input: "@,
            ApiError::Search(_) => "Search Error: "@,
            ApiError::Indexing(_) => "Indexing Error: "@,
            ApiError::Analytics(_) => "Ariadne Error: "@,
            ApiError::Payments(_) => "Payments Error: "@,
            ApiError::Discord(_) => "Discord Error: "@,
            ApiError::Turnstile => "Captcha Error. Try resubmitting the form."@,
            ApiError::Decoding(_) => "Error while decoding Base62: "@,
            ApiError::ImageParse(_) => "Image Parsing Error: "@,
            ApiError::PasswordHashing(_) => "Password Hashing Error: "@,
            ApiError::PasswordStrengthCheck(_) => "Password strength checking error: "@,
        }
    }

    /// What follows the heading: the message that the failure carries. Three
    /// kinds of failure show their heading alone.
    pub open spec fn detail(self) -> Seq<char> {
        match self {
            ApiError::Env(_) => Seq::empty(),
            ApiError::FileHosting(_) => Seq::empty(),
            ApiError::Turnstile => Seq::empty(),
            ApiError::Authentication(error) => error.message_text(),
            ApiError::Database(message) => message@,
            ApiError::SqlxDatabase(message) => message@,
            ApiError::Xml(message) => message@,
            ApiError::Json(message) => message@,
            ApiError::CustomAuthentication(message) => message@,
            ApiError::InvalidInput(message) => message@,
            ApiError::Validation(message) => message@,
            ApiError::Search(message) => message@,
            ApiError::Indexing(message) => message@,
            ApiError::Analytics(message) => message@,
            ApiError::Payments(message) => message@,
            ApiError::Discord(message) => message@,
            ApiError::Decoding(message) => message@,
            ApiError::ImageParse(message) => message@,
            ApiError::PasswordHashing(message) => message@,
            ApiError::PasswordStrengthCheck(message) => message@,
        }
    }

    /// The sentence shown to a person.
    pub open spec fn description_text(self) -> Seq<char> {
        self.heading() + self.detail()
    }

    pub fn status_code(&self) -> (status: u16)
        ensures
            status == self.status(),
    {
        match self {
            ApiError::Env(..) => INTERNAL_SERVER_ERROR,
            ApiError::Database(..) => INTERNAL_SERVER_ERROR,
            ApiError::SqlxDatabase(..) => INTERNAL_SERVER_ERROR,
            ApiError::Authentication(..) => UNAUTHORIZED,
            ApiError::CustomAuthentication(..) => UNAUTHORIZED,
            ApiError::Xml(..) => INTERNAL_SERVER_ERROR,
            ApiError::Json(..) => BAD_REQUEST,
            ApiError::Search(..) => INTERNAL_SERVER_ERROR,
            ApiError::Indexing(..) => INTERNAL_SERVER_ERROR,
            ApiError::FileHosting(..) => INTERNAL_SERVER_ERROR,
            ApiError::InvalidInput(..) => BAD_REQUEST,
            ApiError::Validation(..) => BAD_REQUEST,
            ApiError::Analytics(..) => FAILED_DEPENDENCY,
            ApiError::Payments(..) => FAILED_DEPENDENCY,
            ApiError::Discord(..) => FAILED_DEPENDENCY,
            ApiError::Turnstile => BAD_REQUEST,
            ApiError::Decoding(..) => BAD_REQUEST,
            ApiError::ImageParse(..) => BAD_REQUEST,
            ApiError::PasswordHashing(..) => INTERNAL_SERVER_ERROR,
            ApiError::PasswordStrengthCheck(..) => BAD_REQUEST,
        }
    }

    pub fn error_name(&self) -> (name: &'static str)
        ensures
            name@ == self.name(),
    {
        match self {
            ApiError::Env(..) => "environment_error",
            ApiError::SqlxDatabase(..) => "database_error",
            ApiError::Database(..) => "database_error",
            ApiError::Authentication(..) => "unauthorized",
            ApiError::CustomAuthentication(..) => "unauthorized",
            ApiError::Xml(..) => "xml_error",
            ApiError::Json(..) => "json_error",
            ApiError::Search(..) => "search_error",
            ApiError::Indexing(..) => "indexing_error",
            ApiError::FileHosting(..) => "file_hosting_error",
            ApiError::InvalidInput(..) => "invalid_input",
            ApiError::Validation(..) => "invalid_input",
            ApiError::Analytics(..) => "analytics_error",
            ApiError::Payments(..) => "payments_error",
            ApiError::Discord(..) => "discord_error",
            ApiError::Turnstile => "turnstile_error",
            ApiError::Decoding(..) => "decoding_error",
            ApiError::ImageParse(..) => "invalid_image",
            ApiError::PasswordHashing(..) => "password_hashing_error",
            ApiError::PasswordStrengthCheck(..) => "strength_check_error",
        }
    }

    fn heading_str(&self) -> (heading: &'static str)
        ensures
            heading@ == self.heading(),
    {
        match self {
            ApiError::Env(..) => "Environment Error",
            ApiError::FileHosting(..) => "Error while uploading file",
            ApiError::Database(..) => "Database Error: ",
            ApiError::SqlxDatabase(..) => "Database Error: ",
            ApiError::Xml(..) => "Internal server error: ",
            ApiError::Json(..) => "Deserialization error: ",
            ApiError::Authentication(..) => "Authentication Error: ",
            ApiError::CustomAuthentication(..) => "Authentication Error: ",
            ApiError::InvalidInput(..) => "Invalid Input: ",
            ApiError::Validation(..) => "Error while validating input: ",
            ApiError::Search(..) => "Search Error: ",
            ApiError::Indexing(..) => "Indexing Error: ",
            ApiError::Analytics(..) => "Ariadne Error: ",
            ApiError::Payments(..) => "Payments Error: ",
            ApiError::Discord(..) => "Discord Error: ",
            ApiError::Turnstile => "Captcha Error. Try resubmitting the form.",
            ApiError::Decoding(..) => "Error while decoding Base62: ",
            ApiError::ImageParse(..) => "Image Parsing Error: ",
            ApiError::PasswordHashing(..) => "Password Hashing Error: ",
            ApiError::PasswordStrengthCheck(..) => "Password strength checking error: ",
        }
    }

    /// Writes out the sentence shown to a person: the heading of the kind of
    /// failure, then the message that the failure carries.
    pub fn description(&self) -> (text: String)
        ensures
            text@ == self.description_text(),
    {
        let mut text = self.heading_str().to_owned();
        match self {
            ApiError::Env(_) | ApiError::FileHosting(_) | ApiError::Turnstile => {
                assert(text@ + Seq::<char>::empty() =~= text@);
            },
            ApiError::Authentication(error) => {
                text.append(error.message());
            },
            ApiError::Database(message)
            | ApiError::SqlxDatabase(message)
            | ApiError::Xml(message)
            | ApiError::Json(message)
            | ApiError::CustomAuthentication(message)
            | ApiError::InvalidInput(message)
            | ApiError::Validation(message)
            | ApiError::Search(message)
            | ApiError::Indexing(message)
            | ApiError::Analytics(message)
            | ApiError::Payments(message)
            | ApiError::Discord(message)
            | ApiError::Decoding(message)
            | ApiError::ImageParse(message)
            | ApiError::PasswordHashing(message)
            | ApiError::PasswordStrengthCheck(message) => {
                text.append(message.as_str());
            },
        }
        text
    }

    /// Puts together what is sent back for this failure.
    pub fn error_response(&self) -> (response: ErrorResponse)
        ensures
            response.status == self.status(),
            response.error@ == self.name(),
            response.description@ == self.description_text(),
    {
        ErrorResponse {
            status: self.status_code(),
            error: self.error_name(),
            description: self.description(),
        }
    }
}

} // verus!
