//! The errors of handling one request, and the response that a client gets for
//! each: a 400 with a plain-text message for what the client sent wrong, a 500
//! without a body for what went wrong inside.
use vstd::prelude::*;
use vstd::string::*;
use crate::outside::{content_type_header, text_plain};
use crate::text::{concat2, concat3, join, joined};

verus! {

/// An error that occurred while a request was handled. The messages of
/// underlying errors are kept as text.
#[derive(Debug, PartialEq, Eq)]
pub enum EventError {
    /// The response could not be put together.
    HttpResponse(String),
    /// The body was not the base64 that the gateway said it was.
    InvalidBodyBase64(String),
    /// The body was not the JSON that the operation expects. `path` is where
    /// in the body decoding failed, if it is known.
    InvalidBodyJson { path: Option<String>, message: String },
    /// The body was not UTF-8.
    InvalidBodyUtf8(String),
    /// A header was not text.
    InvalidHeaderUtf8 { header: String, message: String },
    /// A path parameter could not be decoded or parsed.
    InvalidRequestPathParam { param_name: String, source: Option<String> },
    /// A query parameter could not be parsed.
    InvalidRequestQueryParam { param_name: String, source: Option<String> },
    MissingRequestBody,
    MissingRequestHeader(String),
    MissingRequestParam(String),
    /// A fault that was caught while the request was handled.
    Panic(String),
    /// The body of a response of the named type could not be written as JSON.
    ToJsonResponse { response_type: String, message: String },
    UnexpectedContentType(String),
    UnexpectedOperationId(String),
}

pub enum EventErrorView {
    HttpResponse(Seq<char>),
    InvalidBodyBase64(Seq<char>),
    InvalidBodyJson { path: Option<Seq<char>>, message: Seq<char> },
    InvalidBodyUtf8(Seq<char>),
    InvalidHeaderUtf8 { header: Seq<char>, message: Seq<char> },
    InvalidRequestPathParam { param_name: Seq<char>, source: Option<Seq<char>> },
    InvalidRequestQueryParam { param_name: Seq<char>, source: Option<Seq<char>> },
    MissingRequestBody,
    MissingRequestHeader(Seq<char>),
    MissingRequestParam(Seq<char>),
    Panic(Seq<char>),
    ToJsonResponse { response_type: Seq<char>, message: Seq<char> },
    UnexpectedContentType(Seq<char>),
    UnexpectedOperationId(Seq<char>),
}

impl DeepView for EventError {
    type V = EventErrorView;

    open spec fn deep_view(&self) -> EventErrorView {
        match self {
            EventError::HttpResponse(m) => EventErrorView::HttpResponse(m@),
            EventError::InvalidBodyBase64(m) => EventErrorView::InvalidBodyBase64(m@),
            EventError::InvalidBodyJson { path, message } => EventErrorView::InvalidBodyJson {
                path: path.deep_view(),
                message: message@,
            },
            EventError::InvalidBodyUtf8(m) => EventErrorView::InvalidBodyUtf8(m@),
            EventError::InvalidHeaderUtf8 { header, message } => EventErrorView::InvalidHeaderUtf8 {
                header: header@,
                message: message@,
            },
            EventError::InvalidRequestPathParam {
                param_name,
                source,
            } => EventErrorView::InvalidRequestPathParam {
                param_name: param_name@,
                source: source.deep_view(),
            },
            EventError::InvalidRequestQueryParam {
                param_name,
                source,
            } => EventErrorView::InvalidRequestQueryParam {
                param_name: param_name@,
                source: source.deep_view(),
            },
            EventError::MissingRequestBody => EventErrorView::MissingRequestBody,
            EventError::MissingRequestHeader(h) => EventErrorView::MissingRequestHeader(h@),
            EventError::MissingRequestParam(p) => EventErrorView::MissingRequestParam(p@),
            EventError::Panic(m) => EventErrorView::Panic(m@),
            EventError::ToJsonResponse { response_type, message } => EventErrorView::ToJsonResponse {
                response_type: response_type@,
                message: message@,
            },
            EventError::UnexpectedContentType(c) => EventErrorView::UnexpectedContentType(c@),
            EventError::UnexpectedOperationId(o) => EventErrorView::UnexpectedOperationId(o@),
        }
    }
}

/// The body of a response.
#[derive(Debug, PartialEq, Eq)]
pub enum Body {
    Empty,
    Text(String),
    Binary(Vec<u8>),
}

pub enum BodyDataView {
    Empty,
    Text(Seq<char>),
    Binary(Seq<u8>),
}

impl DeepView for Body {
    type V = BodyDataView;

    open spec fn deep_view(&self) -> BodyDataView {
        match self {
            Body::Empty => BodyDataView::Empty,
            Body::Text(text) => BodyDataView::Text(text@),
            Body::Binary(bytes) => BodyDataView::Binary(bytes@),
        }
    }
}

/// A response: its status, its headers in order (a name may occur more than
/// once), and its body.
#[derive(Debug, PartialEq, Eq)]
pub struct HttpResponse {
    pub status: u16,
    pub headers: Vec<(String, String)>,
    pub body: Body,
}

pub struct HttpResponseView {
    pub status: u16,
    pub headers: Seq<(Seq<char>, Seq<char>)>,
    pub body: BodyDataView,
}

impl DeepView for HttpResponse {
    type V = HttpResponseView;

    open spec fn deep_view(&self) -> HttpResponseView {
        HttpResponseView {
            status: self.status,
            headers: self.headers.deep_view(),
            body: self.body.deep_view(),
        }
    }
}

/// The name of the variant of an error.
pub open spec fn error_name(error: EventErrorView) -> Seq<char> {
    match error {
        EventErrorView::HttpResponse(_) => "HttpResponse"@,
        EventErrorView::InvalidBodyBase64(_) => "InvalidBodyBase64"@,
        EventErrorView::InvalidBodyJson { .. } => "InvalidBodyJson"@,
        EventErrorView::InvalidBodyUtf8(_) => "InvalidBodyUtf8"@,
        EventErrorView::InvalidHeaderUtf8 { .. } => "InvalidHeaderUtf8"@,
        EventErrorView::InvalidRequestPathParam { .. } => "InvalidRequestPathParam"@,
        EventErrorView::InvalidRequestQueryParam { .. } => "InvalidRequestQueryParam"@,
        EventErrorView::MissingRequestBody => "MissingRequestBody"@,
        EventErrorView::MissingRequestHeader(_) => "MissingRequestHeader"@,
        EventErrorView::MissingRequestParam(_) => "MissingRequestParam"@,
        EventErrorView::Panic(_) => "Panic"@,
        EventErrorView::ToJsonResponse { .. } => "ToJsonResponse"@,
        EventErrorView::UnexpectedContentType(_) => "UnexpectedContentType"@,
        EventErrorView::UnexpectedOperationId(_) => "UnexpectedOperationId"@,
    }
}

/// Whether an error is the client's: a problem with a parameter, with the
/// body, with its encoding or with the declared content type. Everything else
/// is internal, malformed base64 included, since the gateway encodes it.
pub open spec fn is_client_error(error: EventErrorView) -> bool {
    match error {
        EventErrorView::InvalidBodyJson { .. } => true,
        EventErrorView::InvalidBodyUtf8(_) => true,
        EventErrorView::InvalidHeaderUtf8 { .. } => true,
        EventErrorView::InvalidRequestPathParam { .. } => true,
        EventErrorView::InvalidRequestQueryParam { .. } => true,
        EventErrorView::MissingRequestBody => true,
        EventErrorView::MissingRequestHeader(_) => true,
        EventErrorView::MissingRequestParam(_) => true,
        EventErrorView::UnexpectedContentType(_) => true,
        _ => false,
    }
}

/// The status of the response for an error.
pub open spec fn error_status(error: EventErrorView) -> u16 {
    if is_client_error(error) {
        400
    } else {
        500
    }
}

/// The message that a client reads for an error of its own; internal errors
/// are not described to the client.
pub open spec fn error_message(error: EventErrorView) -> Option<Seq<char>> {
    match error {
        EventErrorView::InvalidBodyJson { path, message } => match path {
            None => Some("Invalid request body: "@ + message),
            Some(path) => Some("Invalid request body (path: `"@ + path + "`): "@ + message),
        },
        EventErrorView::InvalidBodyUtf8(_) => Some("Request body must be UTF-8 encoded"@),
        EventErrorView::InvalidHeaderUtf8 { header, message } => Some(
            "Invalid value for header `"@ + header + "`: must be UTF-8 encoded"@,
        ),
        EventErrorView::InvalidRequestPathParam { param_name, source } => Some(
            "Invalid `"@ + param_name + "` request path parameter"@,
        ),
        EventErrorView::InvalidRequestQueryParam { param_name, source } => Some(
            "Invalid `"@ + param_name + "` query parameter"@,
        ),
        EventErrorView::MissingRequestBody => Some("Missing request body"@),
        EventErrorView::MissingRequestHeader(header) => Some(
            "Missing request header `"@ + header + "`"@,
        ),
        EventErrorView::MissingRequestParam(param) => Some(
            "Missing required parameter `"@ + param + "`"@,
        ),
        EventErrorView::UnexpectedContentType(content_type) => Some(
            "Unexpected content type `"@ + content_type + "`"@,
        ),
        _ => None,
    }
}

/// The response for an error: its status, and for a client's error the
/// message as plain text.
pub open spec fn error_response(error: EventErrorView) -> HttpResponseView {
    match error_message(error) {
        Some(message) => HttpResponseView {
            status: error_status(error),
            headers: seq![("content-type"@, "text/plain"@)],
            body: BodyDataView::Text(message),
        },
        None => HttpResponseView {
            status: error_status(error),
            headers: Seq::empty(),
            body: BodyDataView::Empty,
        },
    }
}

/// Every error is answered with a 400 or a 500; the client reads a message
/// exactly for the 400s, as plain text.
pub proof fn law_error_classes(error: EventErrorView)
    ensures
        error_response(error).status == 400 || error_response(error).status == 500,
        error_response(error).status == 400 <==> is_client_error(error),
        error_response(error).status == 400 <==> error_response(error).body is Text,
        error_response(error).status == 500 <==> error_response(error).body is Empty,
{
}

impl EventError {
    /// The name of the variant, such as `InvalidBodyBase64`.
    pub fn name(&self) -> (r: &'static str)
        ensures
            r@ == error_name(self.deep_view()),
    {
        match self {
            EventError::HttpResponse(_) => "HttpResponse",
            EventError::InvalidBodyBase64(_) => "InvalidBodyBase64",
            EventError::InvalidBodyJson { .. } => "InvalidBodyJson",
            EventError::InvalidBodyUtf8(_) => "InvalidBodyUtf8",
            EventError::InvalidHeaderUtf8 { .. } => "InvalidHeaderUtf8",
            EventError::InvalidRequestPathParam { .. } => "InvalidRequestPathParam",
            EventError::InvalidRequestQueryParam { .. } => "InvalidRequestQueryParam",
            EventError::MissingRequestBody => "MissingRequestBody",
            EventError::MissingRequestHeader(_) => "MissingRequestHeader",
            EventError::MissingRequestParam(_) => "MissingRequestParam",
            EventError::Panic(_) => "Panic",
            EventError::ToJsonResponse { .. } => "ToJsonResponse",
            EventError::UnexpectedContentType(_) => "UnexpectedContentType",
            EventError::UnexpectedOperationId(_) => "UnexpectedOperationId",
        }
    }

    /// The message that a client reads for the error, if it reads one.
    pub fn client_message(&self) -> (r: Option<String>)
        ensures
            r.deep_view() == error_message(self.deep_view()),
    {
        match self {
            EventError::InvalidBodyJson { path, message } => match path {
                None => Some(concat2("Invalid request body: ", message.as_str())),
                Some(path) => {
                    let head = concat3("Invalid request body (path: `", path.as_str(), "`): ");
                    Some(concat2(head.as_str(), message.as_str()))
                },
            },
            EventError::InvalidBodyUtf8(_) => Some(
                String::from_str("Request body must be UTF-8 encoded"),
            ),
            EventError::InvalidHeaderUtf8 { header, message } => Some(
                concat3("Invalid value for header `", header.as_str(), "`: must be UTF-8 encoded"),
            ),
            EventError::InvalidRequestPathParam { param_name, source } => Some(
                concat3("Invalid `", param_name.as_str(), "` request path parameter"),
            ),
            EventError::InvalidRequestQueryParam { param_name, source } => Some(
                concat3("Invalid `", param_name.as_str(), "` query parameter"),
            ),
            EventError::MissingRequestBody => Some(String::from_str("Missing request body")),
            EventError::MissingRequestHeader(header) => Some(
                concat3("Missing request header `", header.as_str(), "`"),
            ),
            EventError::MissingRequestParam(param) => Some(
                concat3("Missing required parameter `", param.as_str(), "`"),
            ),
            EventError::UnexpectedContentType(content_type) => Some(
                concat3("Unexpected content type `", content_type.as_str(), "`"),
            ),
            _ => None,
        }
    }

    /// The response that the client gets for the error.
    pub fn into_response(self) -> (r: HttpResponse)
        ensures
            r.deep_view() == error_response(self.deep_view()),
    {
        let message = self.client_message();
        match message {
            Some(text) => {
                let mut headers: Vec<(String, String)> = Vec::new();
                headers.push((content_type_header(), text_plain()));
                assert(headers.deep_view() =~= seq![("content-type"@, "text/plain"@)]);
                HttpResponse { status: 400, headers, body: Body::Text(text) }
            },
            None => {
                let headers: Vec<(String, String)> = Vec::new();
                assert(headers.deep_view() =~= Seq::empty());
                HttpResponse { status: 500, headers, body: Body::Empty }
            },
        }
    }
}

/// What the gateway is handed for a response.
#[derive(Debug, PartialEq, Eq)]
pub struct ProxyResponse {
    pub status_code: i64,
    pub multi_value_headers: Vec<(String, String)>,
    pub body: Option<Body>,
    pub is_base64_encoded: bool,
}

/// Hands a response to the gateway: the status as a number, the headers as
/// they are, the body as it is, never marked as base64.
pub fn http_response_to_apigw(response: HttpResponse) -> (r: ProxyResponse)
    ensures
        r.status_code == response.status as int,
        r.multi_value_headers.deep_view() == response.headers.deep_view(),
        r.body.deep_view() == Some(response.body.deep_view()),
        !r.is_base64_encoded,
{
    ProxyResponse {
        status_code: response.status as i64,
        multi_value_headers: response.headers,
        body: Some(response.body),
        is_base64_encoded: false,
    }
}

/// The lines that name the causes of an error, one for each cause.
pub open spec fn cause_lines(causes: Seq<Seq<char>>) -> Seq<Seq<char>> {
    Seq::new(causes.len(), |i: int| "  caused by: "@ + causes[i])
}

/// An error as text for a log: the message, after the name of the error if it
/// has one; the lines of the stack trace, if there is one; and one line for
/// each cause, outermost first.
pub open spec fn formatted_error(
    message: Seq<char>,
    name: Option<Seq<char>>,
    backtrace: Option<Seq<Seq<char>>>,
    causes: Seq<Seq<char>>,
) -> Seq<char> {
    let line = match name {
        Some(name) => name + ": "@ + message,
        None => message,
    };
    let top = match backtrace {
        Some(lines) => line + "\n  stack trace:\n"@ + joined(lines, "    \n"@),
        None => line,
    };
    if causes.len() > 0 {
        top + "\n"@ + joined(cause_lines(causes), "\n"@)
    } else {
        top
    }
}

/// Writes an error as text for a log, with the chain of its causes.
#[verifier::loop_isolation(false)]
pub fn format_error(
    message: &str,
    name: Option<&str>,
    backtrace: Option<&Vec<String>>,
    causes: &Vec<String>,
) -> (r: String)
    ensures
        r@ == formatted_error(message@, name.deep_view(), backtrace.deep_view(), causes.deep_view()),
{
    let line = match name {
        Some(name) => concat3(name, ": ", message),
        None => String::from_str(message),
    };
    let top = match backtrace {
        Some(lines) => {
            let trace = join(lines, "    \n");
            concat3(line.as_str(), "\n  stack trace:\n", trace.as_str())
        },
        None => line,
    };
    if causes.len() > 0 {
        let mut lines: Vec<String> = Vec::new();
        let mut i: usize = 0;
        while i < causes.len()
            invariant
                i <= causes.len(),
                lines.deep_view() == cause_lines(causes.deep_view()).take(i as int),
            decreases causes.len() - i,
        {
            let ghost before = lines.deep_view();
            let made = concat2("  caused by: ", causes[i].as_str());
            lines.push(made);
            assert(lines.deep_view() =~= cause_lines(causes.deep_view()).take(i as int + 1));
            i += 1;
        }
        assert(lines.deep_view() =~= cause_lines(causes.deep_view()));
        let all = join(&lines, "\n");
        concat3(top.as_str(), "\n", all.as_str())
    } else {
        top
    }
}

} // verus!
