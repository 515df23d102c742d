use rust_web_dev::digits::ParseFailure;
use rust_web_dev::taxonomy::APILayerError;
use rust_web_dev::taxonomy::DbFailure;
use rust_web_dev::taxonomy::Error;

#[test]
fn api_layer_error_renders_status_and_message() {
    let e = APILayerError {
        status: 500,
        message: String::from("content moderation unavailable"),
    };
    assert_eq!(e.render(), "Status: 500, Message: content moderation unavailable");
}

#[test]
fn every_kind_renders_its_fixed_text() {
    let api = APILayerError {
        status: 403,
        message: String::from("key rejected"),
    };
    let cases: Vec<(Error, &str)> = vec![
        (
            Error::ParseError(ParseFailure::Empty),
            "Cannot parse parameter: cannot parse integer from empty string",
        ),
        (
            Error::ParseError(ParseFailure::Overflow),
            "Cannot parse parameter: number too large to fit in target type",
        ),
        (Error::MissingParameters, "Missing parameter"),
        (Error::WrongPassword, "Wrong password"),
        (Error::CannotDecryptToken, "Cannot decrypt error"),
        (
            Error::Unauthorized,
            "No permisssion to change the underlying rsource",
        ),
        (
            Error::ArgonLibraryError(String::from("bad salt")),
            "Connot verify password",
        ),
        (Error::QuestionNotFound, "Question not found"),
        (
            Error::DatabaseQueryError(DbFailure {
                code: None,
                detail: String::from("boom"),
            }),
            "Cannot update, invalid data.",
        ),
        (
            Error::MigrationError(String::from("step 2 failed")),
            "Cannot migrate data",
        ),
        (
            Error::ReqwestAPIError(String::from("timed out")),
            "External API Error: timed out",
        ),
        (
            Error::MiddlewareReqwestError(String::from("gave up")),
            "External API Error: gave up",
        ),
        (
            Error::ClientError(api.clone()),
            "External Client error: Status: 403, Message: key rejected",
        ),
        (
            Error::ServerError(api),
            "External Server error: Status: 403, Message: key rejected",
        ),
    ];
    for (kind, text) in cases {
        let rendered = kind.render();
        assert_eq!(rendered, text);
        assert!(!rendered.is_empty());
    }
}

#[test]
fn rendering_is_stable_across_calls() {
    let e = Error::QuestionNotFound;
    assert_eq!(e.render(), e.render());
}
