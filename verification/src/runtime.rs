//! What the wrapper of an operation does with one request: checking the
//! declared content type, decoding the body, reading the parameters, and the
//! order of parsing, authentication, handler and response. Whatever only the
//! caller can do (parsing a value into a type of the handler, authenticating,
//! calling the handler) reaches the wrapper as an event.
use vstd::prelude::*;
use vstd::string::*;
use vstd::utf8::{decode_utf8, encode_utf8, valid_utf8};
use crate::document::ParameterLocation;
use crate::error::{
    error_response, Body, BodyDataView, EventError, EventErrorView, HttpResponse, HttpResponseView,
};
use crate::outside::{
    base64_decode, base64_decoded, content_type_header, essence_of, is_header_value, is_status_code,
    mime_essence, percent_decode, percent_decoded, text_from_utf8, valid_header_value,
};
use crate::plan::{BodySchema, BodySchemaView, RequestParameter, RequestParameterView};
use crate::text::str_eq;

verus! {

/// What a request says in one header: nothing, something that is not text, or
/// text.
#[derive(Debug, PartialEq, Eq)]
pub enum HeaderText {
    Missing,
    NotText(String),
    Text(String),
}

pub enum HeaderTextView {
    Missing,
    NotText(Seq<char>),
    Text(Seq<char>),
}

impl DeepView for HeaderText {
    type V = HeaderTextView;

    open spec fn deep_view(&self) -> HeaderTextView {
        match self {
            HeaderText::Missing => HeaderTextView::Missing,
            HeaderText::NotText(message) => HeaderTextView::NotText(message@),
            HeaderText::Text(text) => HeaderTextView::Text(text@),
        }
    }
}

/// The error for the content type that a request declares, if it is not the
/// one media type that the operation expects: the header must be there, and
/// its essence must be that media type exactly.
pub open spec fn content_type_error(header: HeaderTextView, expected: Seq<char>) -> Option<
    EventErrorView,
> {
    match header {
        HeaderTextView::Missing => Some(EventErrorView::MissingRequestHeader("content-type"@)),
        HeaderTextView::NotText(message) => Some(
            EventErrorView::InvalidHeaderUtf8 { header: "content-type"@, message },
        ),
        HeaderTextView::Text(text) => if mime_essence(text) == Some(expected) {
            None
        } else {
            Some(EventErrorView::UnexpectedContentType(text))
        },
    }
}

/// Checks the content type of a request against the media type of the body
/// plan. This comes before any decoding of the body, whatever the body holds.
pub fn check_content_type(header: &HeaderText, expected: &str) -> (res: Result<(), EventError>)
    ensures
        match content_type_error(header.deep_view(), expected@) {
            None => res is Ok,
            Some(e) => res is Err && res->Err_0.deep_view() == e,
        },
{
    match header {
        HeaderText::Missing => Err(EventError::MissingRequestHeader(content_type_header())),
        HeaderText::NotText(message) => Err(
            EventError::InvalidHeaderUtf8 {
                header: content_type_header(),
                message: message.clone(),
            },
        ),
        HeaderText::Text(text) => {
            let accepted = match essence_of(text.as_str()) {
                Some(essence) => str_eq(essence.as_str(), expected),
                None => false,
            };
            if accepted {
                Ok(())
            } else {
                Err(EventError::UnexpectedContentType(text.clone()))
            }
        },
    }
}

/// The bytes of the body of a request: the bytes of its text, or what the
/// text decodes to where the gateway says that it is base64; `None` where it
/// is said to be base64 and is not.
pub open spec fn body_bytes(body: Option<Seq<char>>, is_base64: bool) -> Option<Option<Seq<u8>>> {
    match body {
        None => Some(None),
        Some(text) => if is_base64 {
            match base64_decoded(text) {
                Some(bytes) => Some(Some(bytes)),
                None => None,
            }
        } else {
            Some(Some(encode_utf8(text)))
        },
    }
}

/// Decodes the body of a request. A body that is said to be base64 and is not
/// gives `InvalidBodyBase64`, an internal error.
pub fn decode_body(body: Option<String>, is_base64: bool) -> (res: Result<
    Option<Vec<u8>>,
    EventError,
>)
    ensures
        match body_bytes(body.deep_view(), is_base64) {
            Some(bytes) => res is Ok && res->Ok_0.deep_view() == bytes,
            None => res is Err && res->Err_0 is InvalidBodyBase64,
        },
{
    match body {
        None => Ok(None),
        Some(text) => {
            if is_base64 {
                match base64_decode(text.as_str()) {
                    Ok(bytes) => {
                        assert(bytes.deep_view() =~= bytes@);
                        Ok(Some(bytes))
                    },
                    Err(message) => Err(EventError::InvalidBodyBase64(message)),
                }
            } else {
                let bytes = text.as_str().as_bytes_vec();
                assert(bytes.deep_view() =~= bytes@);
                Ok(Some(bytes))
            }
        },
    }
}

/// What the wrapper hands on for a body.
#[derive(Debug, PartialEq, Eq)]
pub enum BodyValue {
    Bytes(Vec<u8>),
    Text(String),
    /// JSON that the caller decodes into the planned type.
    Json(Vec<u8>),
}

pub enum BodyValueView {
    Bytes(Seq<u8>),
    Text(Seq<char>),
    Json(Seq<u8>),
}

impl DeepView for BodyValue {
    type V = BodyValueView;

    open spec fn deep_view(&self) -> BodyValueView {
        match self {
            BodyValue::Bytes(bytes) => BodyValueView::Bytes(bytes@),
            BodyValue::Text(text) => BodyValueView::Text(text@),
            BodyValue::Json(bytes) => BodyValueView::Json(bytes@),
        }
    }
}

/// What becomes of the decoded bytes of a body under a plan: `Ok(None)` for an
/// optional body that is absent. The two errors are a body that is not the
/// UTF-8 that a text plan asks for, and a required body that is absent.
pub open spec fn body_value(plan: BodySchemaView, bytes: Option<Seq<u8>>, required: bool) -> Result<
    Option<BodyValueView>,
    bool,
> {
    match bytes {
        None => if required {
            Err(true)
        } else {
            Ok(None)
        },
        Some(bytes) => match plan {
            BodySchemaView::Bytes => Ok(Some(BodyValueView::Bytes(bytes))),
            BodySchemaView::Text => if valid_utf8(bytes) {
                Ok(Some(BodyValueView::Text(decode_utf8(bytes))))
            } else {
                Err(false)
            },
            BodySchemaView::JsonValue => Ok(Some(BodyValueView::Json(bytes))),
            BodySchemaView::Json(_) => Ok(Some(BodyValueView::Json(bytes))),
        },
    }
}

/// Reads the decoded bytes of a body under its plan.
pub fn read_body(plan: &BodySchema, bytes: Option<Vec<u8>>, required: bool) -> (res: Result<
    Option<BodyValue>,
    EventError,
>)
    ensures
        match body_value(plan.deep_view(), bytes.deep_view(), required) {
            Ok(value) => res is Ok && res->Ok_0.deep_view() == value,
            Err(missing) => res is Err && if missing {
                res->Err_0 is MissingRequestBody
            } else {
                res->Err_0 is InvalidBodyUtf8
            },
        },
{
    match bytes {
        None => {
            if required {
                Err(EventError::MissingRequestBody)
            } else {
                Ok(None)
            }
        },
        Some(bytes) => {
            assert(bytes.deep_view() =~= bytes@);
            match plan {
                BodySchema::Bytes => Ok(Some(BodyValue::Bytes(bytes))),
                BodySchema::Text => {
                    match text_from_utf8(bytes) {
                        Ok(text) => Ok(Some(BodyValue::Text(text))),
                        Err(message) => Err(EventError::InvalidBodyUtf8(message)),
                    }
                },
                BodySchema::JsonValue => Ok(Some(BodyValue::Json(bytes))),
                BodySchema::Json(_) => Ok(Some(BodyValue::Json(bytes))),
            }
        },
    }
}

/// Reads the body of a request under the plan of the operation, in this
/// order: the declared content type is checked against the media type of the
/// plan; then the body is decoded from base64 if the gateway says so; then it
/// is read under the plan. The content type is checked whatever the body
/// holds, even where there is no body at all.
pub fn parse_request_body(
    mime: &str,
    plan: &BodySchema,
    required: bool,
    content_type: &HeaderText,
    body: Option<String>,
    is_base64: bool,
) -> (res: Result<Option<BodyValue>, EventError>)
    ensures
        match content_type_error(content_type.deep_view(), mime@) {
            Some(e) => res is Err && res->Err_0.deep_view() == e,
            None => match body_bytes(body.deep_view(), is_base64) {
                None => res is Err && res->Err_0 is InvalidBodyBase64,
                Some(bytes) => match body_value(plan.deep_view(), bytes, required) {
                    Ok(value) => res is Ok && res->Ok_0.deep_view() == value,
                    Err(missing) => res is Err && if missing {
                        res->Err_0 is MissingRequestBody
                    } else {
                        res->Err_0 is InvalidBodyUtf8
                    },
                },
            },
        },
{
    match check_content_type(content_type, mime) {
        Err(e) => {
            return Err(e);
        },
        Ok(()) => {},
    }
    let bytes = match decode_body(body, is_base64) {
        Err(e) => {
            return Err(e);
        },
        Ok(bytes) => bytes,
    };
    read_body(plan, bytes, required)
}

/// What a request holds for one parameter, as the gateway hands it over: one
/// text (a header, a path segment, the first value of a query parameter), a
/// header that is not text, or all values of a query parameter.
#[derive(Debug, PartialEq, Eq)]
pub enum RawParameter {
    Text(String),
    NotText(String),
    Values(Vec<String>),
}

pub enum RawParameterView {
    Text(Seq<char>),
    NotText(Seq<char>),
    Values(Seq<Seq<char>>),
}

impl DeepView for RawParameter {
    type V = RawParameterView;

    open spec fn deep_view(&self) -> RawParameterView {
        match self {
            RawParameter::Text(text) => RawParameterView::Text(text@),
            RawParameter::NotText(message) => RawParameterView::NotText(message@),
            RawParameter::Values(values) => RawParameterView::Values(values.deep_view()),
        }
    }
}

/// Where the gateway holds what a request says for a parameter.
#[derive(Clone, Copy, Debug, PartialEq, Eq, Structural)]
pub enum ParameterSource {
    Header,
    PathSegment,
    /// The first value of a query parameter.
    FirstValue,
    /// All values of a query parameter.
    AllValues,
}

/// Where a parameter is read from: a header or a path segment for those, and
/// the query for every other, of which a repeated parameter reads all values
/// and any other the first.
pub open spec fn source_of(plan: RequestParameterView) -> ParameterSource {
    match plan.location {
        ParameterLocation::Header => ParameterSource::Header,
        ParameterLocation::Path => ParameterSource::PathSegment,
        _ => if plan.repeated {
            ParameterSource::AllValues
        } else {
            ParameterSource::FirstValue
        },
    }
}

/// Says where a parameter is read from.
pub fn parameter_source(plan: &RequestParameter) -> (r: ParameterSource)
    ensures
        r == source_of(plan.deep_view()),
{
    match plan.location {
        ParameterLocation::Header => ParameterSource::Header,
        ParameterLocation::Path => ParameterSource::PathSegment,
        _ => {
            if plan.repeated {
                ParameterSource::AllValues
            } else {
                ParameterSource::FirstValue
            }
        },
    }
}

/// Why a parameter cannot be read, by kind.
#[derive(Clone, Copy, Debug, PartialEq, Eq, Structural)]
pub enum ParameterFault {
    Missing,
    NotText,
    Undecodable,
}

/// The strings of a parameter that are handed on, each to be taken as it is
/// or parsed as the plan says; `Ok(None)` for an optional parameter that is
/// absent. A path parameter is percent-decoded first: the gateway does not
/// decode path segments.
pub open spec fn parameter_strings(plan: RequestParameterView, raw: Option<RawParameterView>) -> Result<
    Option<Seq<Seq<char>>>,
    ParameterFault,
> {
    match raw {
        None => if plan.required {
            Err(ParameterFault::Missing)
        } else {
            Ok(None)
        },
        Some(RawParameterView::NotText(_)) => Err(ParameterFault::NotText),
        Some(RawParameterView::Values(values)) => Ok(Some(values)),
        Some(RawParameterView::Text(text)) => if plan.location == ParameterLocation::Path {
            match percent_decoded(text) {
                Some(decoded) => Ok(Some(seq![decoded])),
                None => Err(ParameterFault::Undecodable),
            }
        } else {
            Ok(Some(seq![text]))
        },
    }
}

/// Reads one parameter of a request under its plan.
pub fn read_parameter(plan: &RequestParameter, raw: Option<RawParameter>) -> (res: Result<
    Option<Vec<String>>,
    EventError,
>)
    ensures
        match parameter_strings(plan.deep_view(), raw.deep_view()) {
            Ok(strings) => res is Ok && res->Ok_0.deep_view() == strings,
            Err(ParameterFault::Missing) => res is Err && res->Err_0.deep_view()
                == EventErrorView::MissingRequestParam(plan.name@),
            Err(ParameterFault::NotText) => res is Err && res->Err_0.deep_view()
                == (EventErrorView::InvalidHeaderUtf8 {
                header: plan.name@,
                message: raw->0->NotText_0@,
            }),
            Err(ParameterFault::Undecodable) => res is Err && (res->Err_0
                matches EventError::InvalidRequestPathParam { param_name, source }
                && param_name@ == plan.name@ && source is Some),
        },
{
    match raw {
        None => {
            if plan.required {
                Err(EventError::MissingRequestParam(plan.name.clone()))
            } else {
                Ok(None)
            }
        },
        Some(RawParameter::NotText(message)) => Err(
            EventError::InvalidHeaderUtf8 { header: plan.name.clone(), message },
        ),
        Some(RawParameter::Values(values)) => Ok(Some(values)),
        Some(RawParameter::Text(text)) => {
            let is_path = match plan.location {
                ParameterLocation::Path => true,
                _ => false,
            };
            let mut strings: Vec<String> = Vec::new();
            if is_path {
                match percent_decode(text.as_str()) {
                    Ok(decoded) => {
                        strings.push(decoded);
                        assert(strings.deep_view() =~= seq![decoded@]);
                        Ok(Some(strings))
                    },
                    Err(message) => Err(
                        EventError::InvalidRequestPathParam {
                            param_name: plan.name.clone(),
                            source: Some(message),
                        },
                    ),
                }
            } else {
                strings.push(text);
                assert(strings.deep_view() =~= seq![text@]);
                Ok(Some(strings))
            }
        },
    }
}

/// The error for a parameter whose string could not be parsed into its type.
pub fn parse_failure(plan: &RequestParameter, message: String) -> (r: EventError)
    ensures
        r.deep_view() == if plan.location == ParameterLocation::Path {
            EventErrorView::InvalidRequestPathParam {
                param_name: plan.name@,
                source: Some(message@),
            }
        } else {
            EventErrorView::InvalidRequestQueryParam {
                param_name: plan.name@,
                source: Some(message@),
            }
        },
{
    match plan.location {
        ParameterLocation::Path => EventError::InvalidRequestPathParam {
            param_name: plan.name.clone(),
            source: Some(message),
        },
        _ => EventError::InvalidRequestQueryParam {
            param_name: plan.name.clone(),
            source: Some(message),
        },
    }
}

/// The response for a status, the media type of the body if it has one, the
/// headers that the handler adds, and the body: the content type comes first
/// among the headers. `None` where the status is no status code or the media
/// type cannot be the value of a header.
pub open spec fn response_of(
    status: u16,
    content_type: Option<Seq<char>>,
    headers: Seq<(Seq<char>, Seq<char>)>,
    body: BodyDataView,
) -> Option<HttpResponseView> {
    if !(100 <= status <= 999) {
        None
    } else {
        match content_type {
            None => Some(HttpResponseView { status, headers, body }),
            Some(mime) => if valid_header_value(mime) {
                Some(
                    HttpResponseView { status, headers: seq![("content-type"@, mime)] + headers, body },
                )
            } else {
                None
            },
        }
    }
}

/// Puts a response together.
pub fn into_http_response(
    status: u16,
    content_type: Option<&str>,
    headers: Vec<(String, String)>,
    body: Body,
) -> (res: Result<HttpResponse, EventError>)
    ensures
        match response_of(status, content_type.deep_view(), headers.deep_view(), body.deep_view()) {
            Some(response) => res is Ok && res->Ok_0.deep_view() == response,
            None => res is Err && res->Err_0.deep_view() == EventErrorView::HttpResponse(
                if 100 <= status <= 999 {
                    "invalid header value"@
                } else {
                    "invalid status code"@
                },
            ),
        },
{
    if !is_status_code(status) {
        return Err(EventError::HttpResponse(String::from_str("invalid status code")));
    }
    match content_type {
        None => Ok(HttpResponse { status, headers, body }),
        Some(mime) => {
            if !is_header_value(mime) {
                return Err(EventError::HttpResponse(String::from_str("invalid header value")));
            }
            let mut all: Vec<(String, String)> = Vec::new();
            all.push((content_type_header(), String::from_str(mime)));
            let ghost first = all.deep_view();
            assert(first =~= seq![("content-type"@, mime@)]);
            let mut rest = headers;
            all.append(&mut rest);
            assert(all.deep_view() =~= first + headers.deep_view());
            Ok(HttpResponse { status, headers: all, body })
        },
    }
}

/// Where the wrapper of an operation stands with a request.
#[derive(Clone, Copy, Debug, PartialEq, Eq, Structural)]
pub enum WrapperState {
    /// The parameters and the body are being read.
    Parsing,
    Authenticating,
    /// The handler is running.
    Handling,
    /// The handler's error is being turned into a response.
    MappingError,
    /// The handler's response is being written.
    Serializing,
    Done,
}

/// What happened to the request since the last action.
#[derive(Debug, PartialEq, Eq)]
pub enum WrapperEvent {
    Parsed,
    ParseFailed(EventError),
    Authenticated,
    /// The middleware refused the request with this response.
    Rejected(HttpResponse),
    Handled,
    HandlerFailed,
    ErrorMapped(HttpResponse),
    Serialized(HttpResponse),
    SerializeFailed(EventError),
    /// A fault was caught while the last action ran.
    Fault(String),
}

pub enum WrapperEventView {
    Parsed,
    ParseFailed(EventErrorView),
    Authenticated,
    Rejected(HttpResponseView),
    Handled,
    HandlerFailed,
    ErrorMapped(HttpResponseView),
    Serialized(HttpResponseView),
    SerializeFailed(EventErrorView),
    Fault(Seq<char>),
}

impl DeepView for WrapperEvent {
    type V = WrapperEventView;

    open spec fn deep_view(&self) -> WrapperEventView {
        match self {
            WrapperEvent::Parsed => WrapperEventView::Parsed,
            WrapperEvent::ParseFailed(e) => WrapperEventView::ParseFailed(e.deep_view()),
            WrapperEvent::Authenticated => WrapperEventView::Authenticated,
            WrapperEvent::Rejected(r) => WrapperEventView::Rejected(r.deep_view()),
            WrapperEvent::Handled => WrapperEventView::Handled,
            WrapperEvent::HandlerFailed => WrapperEventView::HandlerFailed,
            WrapperEvent::ErrorMapped(r) => WrapperEventView::ErrorMapped(r.deep_view()),
            WrapperEvent::Serialized(r) => WrapperEventView::Serialized(r.deep_view()),
            WrapperEvent::SerializeFailed(e) => WrapperEventView::SerializeFailed(e.deep_view()),
            WrapperEvent::Fault(message) => WrapperEventView::Fault(message@),
        }
    }
}

/// What the caller does next.
#[derive(Debug, PartialEq, Eq)]
pub enum WrapperAction {
    Authenticate,
    InvokeHandler,
    MapHandlerError,
    Serialize,
    /// The request is answered with this response.
    Respond(HttpResponse),
}

pub enum WrapperActionView {
    Authenticate,
    InvokeHandler,
    MapHandlerError,
    Serialize,
    Respond(HttpResponseView),
}

impl DeepView for WrapperAction {
    type V = WrapperActionView;

    open spec fn deep_view(&self) -> WrapperActionView {
        match self {
            WrapperAction::Authenticate => WrapperActionView::Authenticate,
            WrapperAction::InvokeHandler => WrapperActionView::InvokeHandler,
            WrapperAction::MapHandlerError => WrapperActionView::MapHandlerError,
            WrapperAction::Serialize => WrapperActionView::Serialize,
            WrapperAction::Respond(r) => WrapperActionView::Respond(r.deep_view()),
        }
    }
}

/// The answer to an event that cannot occur where the wrapper stands, and to
/// any caught fault: an internal error.
pub open spec fn fault_response(message: Seq<char>) -> HttpResponseView {
    error_response(EventErrorView::Panic(message))
}

/// The next state and the next action of the wrapper of an operation. The
/// order is strict: the request is parsed; then, if the operation asks for it,
/// authenticated; then the handler runs; then its response is written or its
/// error mapped. The first failure answers the request. A fault, wherever it
/// was caught, and an event out of order are answered as an internal error.
pub open spec fn next_step(authenticated: bool, state: WrapperState, event: WrapperEventView) -> (
    WrapperState,
    WrapperActionView,
) {
    match (state, event) {
        (WrapperState::Parsing, WrapperEventView::Parsed) => if authenticated {
            (WrapperState::Authenticating, WrapperActionView::Authenticate)
        } else {
            (WrapperState::Handling, WrapperActionView::InvokeHandler)
        },
        (WrapperState::Parsing, WrapperEventView::ParseFailed(e)) => (
            WrapperState::Done,
            WrapperActionView::Respond(error_response(e)),
        ),
        (WrapperState::Authenticating, WrapperEventView::Authenticated) => (
            WrapperState::Handling,
            WrapperActionView::InvokeHandler,
        ),
        (WrapperState::Authenticating, WrapperEventView::Rejected(r)) => (
            WrapperState::Done,
            WrapperActionView::Respond(r),
        ),
        (WrapperState::Handling, WrapperEventView::Handled) => (
            WrapperState::Serializing,
            WrapperActionView::Serialize,
        ),
        (WrapperState::Handling, WrapperEventView::HandlerFailed) => (
            WrapperState::MappingError,
            WrapperActionView::MapHandlerError,
        ),
        (WrapperState::MappingError, WrapperEventView::ErrorMapped(r)) => (
            WrapperState::Done,
            WrapperActionView::Respond(r),
        ),
        (WrapperState::Serializing, WrapperEventView::Serialized(r)) => (
            WrapperState::Done,
            WrapperActionView::Respond(r),
        ),
        (WrapperState::Serializing, WrapperEventView::SerializeFailed(e)) => (
            WrapperState::Done,
            WrapperActionView::Respond(error_response(e)),
        ),
        (_, WrapperEventView::Fault(message)) => (
            WrapperState::Done,
            WrapperActionView::Respond(fault_response(message)),
        ),
        _ => (WrapperState::Done, WrapperActionView::Respond(fault_response("event out of order"@))),
    }
}

/// Takes the wrapper of an operation one step further.
pub fn wrapper_step(authenticated: bool, state: WrapperState, event: WrapperEvent) -> (r: (
    WrapperState,
    WrapperAction,
))
    ensures
        r.0 == next_step(authenticated, state, event.deep_view()).0,
        r.1.deep_view() == next_step(authenticated, state, event.deep_view()).1,
{
    match (state, event) {
        (WrapperState::Parsing, WrapperEvent::Parsed) => {
            if authenticated {
                (WrapperState::Authenticating, WrapperAction::Authenticate)
            } else {
                (WrapperState::Handling, WrapperAction::InvokeHandler)
            }
        },
        (WrapperState::Parsing, WrapperEvent::ParseFailed(e)) => (
            WrapperState::Done,
            WrapperAction::Respond(e.into_response()),
        ),
        (WrapperState::Authenticating, WrapperEvent::Authenticated) => (
            WrapperState::Handling,
            WrapperAction::InvokeHandler,
        ),
        (WrapperState::Authenticating, WrapperEvent::Rejected(r)) => (
            WrapperState::Done,
            WrapperAction::Respond(r),
        ),
        (WrapperState::Handling, WrapperEvent::Handled) => (
            WrapperState::Serializing,
            WrapperAction::Serialize,
        ),
        (WrapperState::Handling, WrapperEvent::HandlerFailed) => (
            WrapperState::MappingError,
            WrapperAction::MapHandlerError,
        ),
        (WrapperState::MappingError, WrapperEvent::ErrorMapped(r)) => (
            WrapperState::Done,
            WrapperAction::Respond(r),
        ),
        (WrapperState::Serializing, WrapperEvent::Serialized(r)) => (
            WrapperState::Done,
            WrapperAction::Respond(r),
        ),
        (WrapperState::Serializing, WrapperEvent::SerializeFailed(e)) => (
            WrapperState::Done,
            WrapperAction::Respond(e.into_response()),
        ),
        (_, WrapperEvent::Fault(message)) => (
            WrapperState::Done,
            WrapperAction::Respond(EventError::Panic(message).into_response()),
        ),
        _ => (
            WrapperState::Done,
            WrapperAction::Respond(
                EventError::Panic(String::from_str("event out of order")).into_response(),
            ),
        ),
    }
}

/// The handler runs only after the request was parsed and, where the
/// operation asks for authentication, authenticated.
pub proof fn law_handler_runs_last(authenticated: bool, state: WrapperState, event: WrapperEventView)
    requires
        next_step(authenticated, state, event).1 is InvokeHandler,
    ensures
        (state == WrapperState::Parsing && event is Parsed && !authenticated) || (state
            == WrapperState::Authenticating && event is Authenticated),
{
}

/// A fault never escapes the wrapper: wherever it is caught, the request is
/// over and is answered with a 500 that says nothing.
pub proof fn law_fault_is_contained(authenticated: bool, state: WrapperState, message: Seq<char>)
    ensures
        next_step(authenticated, state, WrapperEventView::Fault(message)).0 == WrapperState::Done,
        (next_step(authenticated, state, WrapperEventView::Fault(message)).1
            matches WrapperActionView::Respond(r) && r.status == 500 && r.body is Empty),
{
}

/// The first failure answers the request: whatever fails, the wrapper is done
/// with the step.
pub proof fn law_failure_short_circuits(authenticated: bool, state: WrapperState, event: WrapperEventView)
    requires
        event is ParseFailed || event is Rejected || event is SerializeFailed || event is Fault,
    ensures
        next_step(authenticated, state, event).0 == WrapperState::Done,
        next_step(authenticated, state, event).1 is Respond,
{
}

} // verus!
