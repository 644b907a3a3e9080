use openapi_lambda::error::{format_error, Body, EventError};

fn s(text: &str) -> String {
    text.to_string()
}

fn client_errors() -> Vec<(EventError, &'static str, &'static str)> {
    vec![
        (
            EventError::InvalidBodyJson { path: None, message: s("expected value") },
            "InvalidBodyJson",
            "Invalid request body: expected value",
        ),
        (
            EventError::InvalidBodyJson { path: Some(s("tags[0]")), message: s("expected string") },
            "InvalidBodyJson",
            "Invalid request body (path: `tags[0]`): expected string",
        ),
        (
            EventError::InvalidBodyUtf8(s("invalid utf-8")),
            "InvalidBodyUtf8",
            "Request body must be UTF-8 encoded",
        ),
        (
            EventError::InvalidHeaderUtf8 { header: s("x-name"), message: s("bad") },
            "InvalidHeaderUtf8",
            "Invalid value for header `x-name`: must be UTF-8 encoded",
        ),
        (
            EventError::InvalidRequestPathParam { param_name: s("petId"), source: None },
            "InvalidRequestPathParam",
            "Invalid `petId` request path parameter",
        ),
        (
            EventError::InvalidRequestQueryParam { param_name: s("limit"), source: Some(s("x")) },
            "InvalidRequestQueryParam",
            "Invalid `limit` query parameter",
        ),
        (EventError::MissingRequestBody, "MissingRequestBody", "Missing request body"),
        (
            EventError::MissingRequestHeader(s("content-type")),
            "MissingRequestHeader",
            "Missing request header `content-type`",
        ),
        (
            EventError::MissingRequestParam(s("petId")),
            "MissingRequestParam",
            "Missing required parameter `petId`",
        ),
        (
            EventError::UnexpectedContentType(s("text/plain")),
            "UnexpectedContentType",
            "Unexpected content type `text/plain`",
        ),
    ]
}

fn internal_errors() -> Vec<(EventError, &'static str)> {
    vec![
        (EventError::HttpResponse(s("bad header")), "HttpResponse"),
        (EventError::InvalidBodyBase64(s("bad padding")), "InvalidBodyBase64"),
        (EventError::Panic(s("boom")), "Panic"),
        (
            EventError::ToJsonResponse { response_type: s("Pet"), message: s("oops") },
            "ToJsonResponse",
        ),
        (EventError::UnexpectedOperationId(s("nope")), "UnexpectedOperationId"),
    ]
}

#[test]
fn errors_of_the_client_are_bad_requests_with_a_message() {
    for (error, name, message) in client_errors() {
        assert_eq!(error.name(), name);
        assert_eq!(error.client_message().as_deref(), Some(message));
        let response = error.into_response();
        assert_eq!(response.status, 400);
        assert_eq!(response.headers, vec![(s("content-type"), s("text/plain"))]);
        assert_eq!(response.body, Body::Text(s(message)));
    }
}

#[test]
fn internal_errors_say_nothing_to_the_client() {
    for (error, name) in internal_errors() {
        assert_eq!(error.name(), name);
        assert_eq!(error.client_message(), None);
        let response = error.into_response();
        assert_eq!(response.status, 500);
        assert_eq!(response.headers, vec![]);
        assert_eq!(response.body, Body::Empty);
    }
}

#[test]
fn an_error_is_written_with_its_causes() {
    assert_eq!(format_error("it failed", None, None, &vec![]), "it failed");
    assert_eq!(
        format_error("it failed", Some("EventError::Panic"), None, &vec![]),
        "EventError::Panic: it failed"
    );
    assert_eq!(
        format_error("it failed", None, None, &vec![s("disk full"), s("no space")]),
        "it failed\n  caused by: disk full\n  caused by: no space"
    );
    assert_eq!(
        format_error(
            "it failed",
            Some("Oops"),
            Some(&vec![s("frame 0"), s("frame 1")]),
            &vec![s("why")]
        ),
        "Oops: it failed\n  stack trace:\nframe 0    \nframe 1\n  caused by: why"
    );
    assert_eq!(
        format_error("it failed", None, Some(&vec![]), &vec![]),
        "it failed\n  stack trace:\n"
    );
}
