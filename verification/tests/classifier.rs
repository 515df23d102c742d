use rust_web_dev::classifier::LogLevel;
use rust_web_dev::classifier::Signal;
use rust_web_dev::classifier::return_error;
use rust_web_dev::digits::ParseFailure;
use rust_web_dev::taxonomy::APILayerError;
use rust_web_dev::taxonomy::DbFailure;
use rust_web_dev::taxonomy::Error;

fn classify_one(signal: Signal) -> (u16, String) {
    let (response, _) = return_error(&vec![signal]);
    (response.status, response.body)
}

#[test]
fn every_kind_alone_matches_the_table() {
    let api = APILayerError {
        status: 502,
        message: String::from("upstream said no"),
    };
    let cases: Vec<(Error, u16, &str)> = vec![
        (
            Error::ParseError(ParseFailure::InvalidDigit),
            416,
            "Cannot parse parameter: invalid digit found in string",
        ),
        (Error::MissingParameters, 416, "Missing parameter"),
        (Error::WrongPassword, 401, "Wrong E-Mail/Password combination"),
        (Error::CannotDecryptToken, 416, "Cannot decrypt error"),
        (
            Error::Unauthorized,
            401,
            "No permission to changing underlying resource",
        ),
        (
            Error::ArgonLibraryError(String::from("hash salt too short")),
            416,
            "Connot verify password",
        ),
        (Error::QuestionNotFound, 416, "Question not found"),
        (
            Error::DatabaseQueryError(DbFailure {
                code: None,
                detail: String::from("connection reset"),
            }),
            422,
            "Cannot update data",
        ),
        (
            Error::MigrationError(String::from("migration 3 failed")),
            416,
            "Cannot migrate data",
        ),
        (
            Error::ReqwestAPIError(String::from("connection refused")),
            500,
            "Internal Server Error",
        ),
        (
            Error::MiddlewareReqwestError(String::from("retries exhausted")),
            500,
            "Internal Server Error",
        ),
        (Error::ClientError(api.clone()), 500, "Internal Server Error"),
        (Error::ServerError(api), 500, "Internal Server Error"),
    ];
    for (kind, status, body) in cases {
        let (got_status, got_body) = classify_one(Signal::Kind(kind));
        assert_eq!(got_status, status);
        assert_eq!(got_body, body);
    }
}

#[test]
fn duplicate_key_code_means_account_exists() {
    let db = DbFailure {
        code: Some(String::from("23505")),
        detail: String::from("duplicate key value violates unique constraint"),
    };
    let (status, body) = classify_one(Signal::Kind(Error::DatabaseQueryError(db)));
    assert_eq!(status, 422);
    assert_eq!(body, "Account already exists");
}

#[test]
fn other_or_absent_code_means_cannot_update() {
    let other = DbFailure {
        code: Some(String::from("40001")),
        detail: String::from("serialization failure"),
    };
    let (status, body) = classify_one(Signal::Kind(Error::DatabaseQueryError(other)));
    assert_eq!(status, 422);
    assert_eq!(body, "Cannot update data");

    let absent = DbFailure {
        code: None,
        detail: String::from("pool timed out"),
    };
    let (status, body) = classify_one(Signal::Kind(Error::DatabaseQueryError(absent)));
    assert_eq!(status, 422);
    assert_eq!(body, "Cannot update data");
}

#[test]
fn earliest_dispatch_category_wins_regardless_of_attachment_order() {
    let wrong_password = Signal::Kind(Error::WrongPassword);
    let malformed_body = Signal::BodyDeserialize(String::from("missing field `title`"));

    let (response, _) = return_error(&vec![wrong_password.clone(), malformed_body.clone()]);
    assert_eq!(response.status, 401);
    assert_eq!(response.body, "Wrong E-Mail/Password combination");

    let (response, _) = return_error(&vec![malformed_body, wrong_password]);
    assert_eq!(response.status, 401);
    assert_eq!(response.body, "Wrong E-Mail/Password combination");
}

#[test]
fn database_beats_every_other_signal() {
    let db = Signal::Kind(Error::DatabaseQueryError(DbFailure {
        code: Some(String::from("23505")),
        detail: String::from("duplicate key"),
    }));
    let cors = Signal::CorsForbidden(String::from("origin not allowed"));
    let (response, _) = return_error(&vec![cors, db]);
    assert_eq!(response.status, 422);
    assert_eq!(response.body, "Account already exists");
}

#[test]
fn detail_is_logged_but_never_sent() {
    let detail = String::from("SELECT failed: relation does not exist");
    let db = Signal::Kind(Error::DatabaseQueryError(DbFailure {
        code: None,
        detail: detail.clone(),
    }));
    let (response, log) = return_error(&vec![db]);
    assert!(!response.body.contains(detail.as_str()));
    assert!(log.message.contains(detail.as_str()));
    assert!(matches!(log.level, LogLevel::Error));

    let transport = String::from("dns error: no record found");
    let (response, log) = return_error(&vec![Signal::Kind(Error::ReqwestAPIError(
        transport.clone(),
    ))]);
    assert!(!response.body.contains(transport.as_str()));
    assert!(log.message.contains(transport.as_str()));

    let upstream = APILayerError {
        status: 429,
        message: String::from("rate limited"),
    };
    let (response, log) = return_error(&vec![Signal::Kind(Error::ClientError(upstream))]);
    assert!(!response.body.contains("rate limited"));
    assert!(log.message.contains("rate limited"));
    assert!(log.message.contains("429"));
}

#[test]
fn no_signal_at_all_is_route_not_found() {
    let (response, log) = return_error(&vec![]);
    assert_eq!(response.status, 404);
    assert_eq!(response.body, "Route not found");
    assert!(matches!(log.level, LogLevel::Warn));
    assert_eq!(log.message, "Requested route was not found");
}

#[test]
fn framework_signals_answer_with_their_own_message() {
    let (response, log) = return_error(&vec![Signal::BodyDeserialize(String::from(
        "invalid type: string, expected u32",
    ))]);
    assert_eq!(response.status, 422);
    assert_eq!(response.body, "invalid type: string, expected u32");
    assert!(log.message.contains("invalid type: string, expected u32"));

    let (response, _) = return_error(&vec![Signal::CorsForbidden(String::from(
        "request-header not allowed",
    ))]);
    assert_eq!(response.status, 403);
    assert_eq!(response.body, "request-header not allowed");
}

#[test]
fn wrong_password_on_login_scenario() {
    let (response, _) = return_error(&vec![Signal::Kind(Error::WrongPassword)]);
    assert_eq!(response.status, 401);
    assert_eq!(response.body, "Wrong E-Mail/Password combination");
}

#[test]
fn missing_pagination_parameters_scenario() {
    let mut params = std::collections::HashMap::new();
    params.insert(String::from("start"), String::from("1"));
    let e = rust_web_dev::pagination::extract_pagination(params).unwrap_err();
    let (response, _) = return_error(&vec![Signal::Kind(e)]);
    assert_eq!(response.status, 416);
    assert_eq!(response.body, "Missing parameter");
}
