use bearer_auth::auth::error::AuthenticationError;
use bearer_auth::routes::{ApiError, ErrorResponse};

fn text(s: &str) -> String {
    s.to_string()
}

fn all() -> Vec<(ApiError, u16, &'static str, &'static str)> {
    vec![
        (ApiError::Env(text("x")), 500, "environment_error", "Environment Error"),
        (ApiError::FileHosting(text("x")), 500, "file_hosting_error", "Error while uploading file"),
        (ApiError::Database(text("x")), 500, "database_error", "Database Error: x"),
        (ApiError::SqlxDatabase(text("x")), 500, "database_error", "Database Error: x"),
        (ApiError::Xml(text("x")), 500, "xml_error", "Internal server error: x"),
        (ApiError::Json(text("x")), 400, "json_error", "Deserialization error: x"),
        (
            ApiError::Authentication(AuthenticationError::InvalidCredentials),
            401,
            "unauthorized",
            "Authentication Error: Invalid Authentication Credentials",
        ),
        (
            ApiError::Authentication(AuthenticationError::InvalidAuthMethod),
            401,
            "unauthorized",
            "Authentication Error: Authentication method was not valid",
        ),
        (ApiError::CustomAuthentication(text("x")), 401, "unauthorized", "Authentication Error: x"),
        (ApiError::InvalidInput(text("x")), 400, "invalid_input", "Invalid Input: x"),
        (ApiError::Validation(text("x")), 400, "invalid_input", "Error while validating input: x"),
        (ApiError::Search(text("x")), 500, "search_error", "Search Error: x"),
        (ApiError::Indexing(text("x")), 500, "indexing_error", "Indexing Error: x"),
        (ApiError::Analytics(text("x")), 424, "analytics_error", "Ariadne Error: x"),
        (ApiError::Payments(text("x")), 424, "payments_error", "Payments Error: x"),
        (ApiError::Discord(text("x")), 424, "discord_error", "Discord Error: x"),
        (
            ApiError::Turnstile,
            400,
            "turnstile_error",
            "Captcha Error. Try resubmitting the form.",
        ),
        (ApiError::Decoding(text("x")), 400, "decoding_error", "Error while decoding Base62: x"),
        (ApiError::ImageParse(text("x")), 400, "invalid_image", "Image Parsing Error: x"),
        (
            ApiError::PasswordHashing(text("x")),
            500,
            "password_hashing_error",
            "Password Hashing Error: x",
        ),
        (
            ApiError::PasswordStrengthCheck(text("x")),
            400,
            "strength_check_error",
            "Password strength checking error: x",
        ),
    ]
}

#[test]
fn every_error_has_its_status() {
    for (error, status, _, _) in all() {
        assert_eq!(error.status_code(), status, "{:?}", error);
    }
}

#[test]
fn every_error_has_its_name() {
    for (error, _, name, _) in all() {
        assert_eq!(error.error_name(), name, "{:?}", error);
    }
}

#[test]
fn every_error_has_its_description() {
    for (error, _, _, description) in all() {
        assert_eq!(error.description(), description, "{:?}", error);
    }
}

#[test]
fn response_puts_the_three_together() {
    for (error, status, name, description) in all() {
        assert_eq!(
            error.error_response(),
            ErrorResponse { status, error: name, description: description.to_string() }
        );
    }
}

#[test]
fn both_authentication_failures_are_unauthorized() {
    let credentials = ApiError::Authentication(AuthenticationError::InvalidCredentials);
    let method = ApiError::Authentication(AuthenticationError::InvalidAuthMethod);
    assert_eq!(credentials.status_code(), 401);
    assert_eq!(method.status_code(), 401);
    assert_eq!(credentials.error_name(), method.error_name());
}

#[test]
fn description_keeps_the_whole_message() {
    let error = ApiError::InvalidInput(text("field `name`: too long (max 64)"));
    assert_eq!(error.description(), "Invalid Input: field `name`: too long (max 64)");
    assert_eq!(ApiError::Database(String::new()).description(), "Database Error: ");
}

#[test]
fn authentication_errors_have_names_and_messages() {
    assert_eq!(AuthenticationError::InvalidCredentials.error_name(), "invalid_credentials");
    assert_eq!(AuthenticationError::InvalidAuthMethod.error_name(), "invalid_auth_method");
    assert_eq!(
        AuthenticationError::InvalidCredentials.message(),
        "Invalid Authentication Credentials"
    );
    assert_eq!(
        AuthenticationError::InvalidAuthMethod.message(),
        "Authentication method was not valid"
    );
}

#[test]
fn retired_api_answers_gone() {
    let response = ErrorResponse::api_deprecated();
    assert_eq!(response.status, 410);
    assert_eq!(response.error, "api_deprecated");
    assert_eq!(
        response.description,
        "You are using an application that uses an outdated version of Modrinth's API. Please either update it or switch to another application. For developers: https://docs.modrinth.com/docs/migrations/v1-to-v2/"
    );
}
