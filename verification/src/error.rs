//! Classification of REST client failures.
//!
//! A failed generated REST call yields a `progenitor_client::Error`; this
//! module turns it into a `RestClientError`, telling transport failures apart
//! by what `reqwest` reports of them and documented error bodies from
//! undocumented ones.
use crate::foreign::{
    display_json_error, display_reqwest_error, display_status_code, reqwest_error_text,
    status_code_text,
    reqwest_body_of, reqwest_connect_of, reqwest_decode_of, reqwest_redirect_of, reqwest_request_of,
    reqwest_status_of, reqwest_timeout_of, response_status_of,
};
use crate::rest::ApiError;
use vstd::prelude::*;

verus! {

/// Unified error type for generated REST client calls.
#[derive(Debug)]
pub enum RestClientError {
    /// The request did not conform to the API's requirements.
    InvalidRequest { message: String },
    /// The request timed out.
    ReqwestTimeout { source: reqwest::Error },
    /// The connection could not be made.
    ReqwestConnect { source: reqwest::Error },
    /// The request could not be built or sent.
    ReqwestRequest { source: reqwest::Error },
    /// A redirect could not be followed.
    ReqwestRedirect { source: reqwest::Error },
    /// The response status was an error.
    ReqwestStatus { source: reqwest::Error },
    /// The request or response body failed.
    ReqwestBody { source: reqwest::Error },
    /// The response body could not be decoded.
    ReqwestDecode { source: reqwest::Error },
    /// Another transport failure.
    ReqwestOther { source: reqwest::Error },
    /// The server answered with a documented error body.
    ApiErrorResponse {
        status: reqwest::StatusCode,
        error_code: String,
        error_message: String,
    },
    /// The server answered with an error whose body is not documented.
    UndocumentedErrorResponse { status: reqwest::StatusCode },
    /// An expected response body could not be parsed.
    InvalidResponsePayload { source: serde_json::Error },
    /// The server answered with a status that the API does not list.
    UnexpectedResponse { status: reqwest::StatusCode },
    /// A custom error raised by a client hook.
    Custom { message: String },
}

impl RestClientError {
    /// The transport failure that the error carries, if it is one of the
    /// `Reqwest*` variants.
    pub open spec fn reqwest_source(self) -> Option<reqwest::Error> {
        match self {
            RestClientError::ReqwestTimeout { source } => Some(source),
            RestClientError::ReqwestConnect { source } => Some(source),
            RestClientError::ReqwestRequest { source } => Some(source),
            RestClientError::ReqwestRedirect { source } => Some(source),
            RestClientError::ReqwestStatus { source } => Some(source),
            RestClientError::ReqwestBody { source } => Some(source),
            RestClientError::ReqwestDecode { source } => Some(source),
            RestClientError::ReqwestOther { source } => Some(source),
            _ => None,
        }
    }
}

/// `prefix` followed by `text`.
pub(crate) fn join_text(prefix: &str, text: &str) -> (joined: String)
    ensures
        joined@ == prefix@ + text@,
{
    let mut joined = String::from_str(prefix);
    joined.append(text);
    joined
}

impl RestClientError {
    /// The message that describes the error, or for an invalid payload the
    /// fixed beginning of it: the rest of that message is the JSON error's
    /// text, which may hold the operating system's wording of an I/O error.
    pub open spec fn message_prefix(self) -> Seq<char> {
        match self {
            RestClientError::InvalidRequest { message } => "invalid request: "@ + message@,
            RestClientError::ReqwestTimeout { source } => "reqwest timeout: "@ + reqwest_error_text(source),
            RestClientError::ReqwestConnect { source } => "reqwest connect error: "@ + reqwest_error_text(source),
            RestClientError::ReqwestRequest { source } => "reqwest request construction error: "@ + reqwest_error_text(source),
            RestClientError::ReqwestRedirect { source } => "reqwest redirect error: "@ + reqwest_error_text(source),
            RestClientError::ReqwestStatus { source } => "reqwest HTTP status error: "@ + reqwest_error_text(source),
            RestClientError::ReqwestBody { source } => "reqwest response body error: "@ + reqwest_error_text(source),
            RestClientError::ReqwestDecode { source } => "reqwest decode error: "@ + reqwest_error_text(source),
            RestClientError::ReqwestOther { source } => "reqwest error: "@ + reqwest_error_text(source),
            RestClientError::ApiErrorResponse { status, error_code, error_message } =>
                "documented API error response: HTTP "@ + status_code_text(status) + " "@
                    + error_code@ + ": "@ + error_message@,
            RestClientError::UndocumentedErrorResponse { status } => "undocumented error response: HTTP "@ + status_code_text(status),
            RestClientError::InvalidResponsePayload { .. } => "invalid response payload: "@,
            RestClientError::UnexpectedResponse { status } => "unexpected response: HTTP "@ + status_code_text(status),
            RestClientError::Custom { message } => message@,
        }
    }

    /// Returns the message that describes the error.
    pub fn message(&self) -> (text: String)
        ensures
            self.message_prefix().is_prefix_of(text@),
            !(self is InvalidResponsePayload) ==> text@ == self.message_prefix(),
    {
        let text = match self {
            RestClientError::InvalidRequest { message } => join_text("invalid request: ", message.as_str()),
            RestClientError::ReqwestTimeout { source } => {
                let text = display_reqwest_error(source);
                join_text("reqwest timeout: ", text.as_str())
            },
            RestClientError::ReqwestConnect { source } => {
                let text = display_reqwest_error(source);
                join_text("reqwest connect error: ", text.as_str())
            },
            RestClientError::ReqwestRequest { source } => {
                let text = display_reqwest_error(source);
                join_text("reqwest request construction error: ", text.as_str())
            },
            RestClientError::ReqwestRedirect { source } => {
                let text = display_reqwest_error(source);
                join_text("reqwest redirect error: ", text.as_str())
            },
            RestClientError::ReqwestStatus { source } => {
                let text = display_reqwest_error(source);
                join_text("reqwest HTTP status error: ", text.as_str())
            },
            RestClientError::ReqwestBody { source } => {
                let text = display_reqwest_error(source);
                join_text("reqwest response body error: ", text.as_str())
            },
            RestClientError::ReqwestDecode { source } => {
                let text = display_reqwest_error(source);
                join_text("reqwest decode error: ", text.as_str())
            },
            RestClientError::ReqwestOther { source } => {
                let text = display_reqwest_error(source);
                join_text("reqwest error: ", text.as_str())
            },
            RestClientError::ApiErrorResponse { status, error_code, error_message } => {
                let status_text = display_status_code(status);
                let mut text = join_text("documented API error response: HTTP ", status_text.as_str());
                text.append(" ");
                text.append(error_code.as_str());
                text.append(": ");
                text.append(error_message.as_str());
                text
            },
            RestClientError::UndocumentedErrorResponse { status } => {
                let text = display_status_code(status);
                join_text("undocumented error response: HTTP ", text.as_str())
            },
            RestClientError::InvalidResponsePayload { source } => {
                let text = display_json_error(source);
                join_text("invalid response payload: ", text.as_str())
            },
            RestClientError::UnexpectedResponse { status } => {
                let text = display_status_code(status);
                join_text("unexpected response: HTTP ", text.as_str())
            },
            RestClientError::Custom { message } => message.clone(),
        };
        proof {
            assert(self.message_prefix() =~= text@.subrange(0, self.message_prefix().len() as int));
        }
        text
    }
}

/// What `reqwest` reports of a transport failure, one flag per predicate
/// of `reqwest::Error` (`is_timeout`, `is_connect`, ...).
#[derive(Clone, Copy, Debug, PartialEq, Eq, Structural)]
pub struct ReqwestErrorFlags {
    pub timeout: bool,
    pub connect: bool,
    pub request: bool,
    pub redirect: bool,
    pub status: bool,
    pub body: bool,
    pub decode: bool,
}

/// The classification of a transport failure: the first flag that is set,
/// in the order timeout, connect, request, redirect, status, body, decode,
/// picks the variant; with none set it is `ReqwestOther`.
pub open spec fn classify_reqwest(source: reqwest::Error, flags: ReqwestErrorFlags) -> RestClientError {
    if flags.timeout {
        RestClientError::ReqwestTimeout { source }
    } else if flags.connect {
        RestClientError::ReqwestConnect { source }
    } else if flags.request {
        RestClientError::ReqwestRequest { source }
    } else if flags.redirect {
        RestClientError::ReqwestRedirect { source }
    } else if flags.status {
        RestClientError::ReqwestStatus { source }
    } else if flags.body {
        RestClientError::ReqwestBody { source }
    } else if flags.decode {
        RestClientError::ReqwestDecode { source }
    } else {
        RestClientError::ReqwestOther { source }
    }
}

/// Each reported flag is the answer of the `reqwest` predicate of the same
/// name: `timeout` is `is_timeout`, `connect` is `is_connect`, and so on.
pub proof fn lemma_reported_flags_answer_each_predicate(source: reqwest::Error)
    ensures
        reported_flags(source).timeout == reqwest_timeout_of(source),
        reported_flags(source).connect == reqwest_connect_of(source),
        reported_flags(source).request == reqwest_request_of(source),
        reported_flags(source).redirect == reqwest_redirect_of(source),
        reported_flags(source).status == reqwest_status_of(source),
        reported_flags(source).body == reqwest_body_of(source),
        reported_flags(source).decode == reqwest_decode_of(source),
{
}

/// The classification follows the reported kinds in priority order: a
/// timeout decides whatever else is reported; otherwise a failed connect
/// decides; then request, redirect, status, body and decode in turn; and
/// only a failure that reports none of them is `ReqwestOther`.
pub proof fn lemma_classification_priority(source: reqwest::Error, flags: ReqwestErrorFlags)
    ensures
        flags.timeout ==> classify_reqwest(source, flags) == (RestClientError::ReqwestTimeout {
            source,
        }),
        !flags.timeout && flags.connect ==> classify_reqwest(source, flags) == (
        RestClientError::ReqwestConnect { source }),
        !flags.timeout && !flags.connect && flags.request ==> classify_reqwest(source, flags) == (
        RestClientError::ReqwestRequest { source }),
        !flags.timeout && !flags.connect && !flags.request && flags.redirect ==> classify_reqwest(
            source,
            flags,
        ) == (RestClientError::ReqwestRedirect { source }),
        !flags.timeout && !flags.connect && !flags.request && !flags.redirect && flags.status
            ==> classify_reqwest(source, flags) == (RestClientError::ReqwestStatus { source }),
        !flags.timeout && !flags.connect && !flags.request && !flags.redirect && !flags.status
            && flags.body ==> classify_reqwest(source, flags) == (RestClientError::ReqwestBody {
            source,
        }),
        !flags.timeout && !flags.connect && !flags.request && !flags.redirect && !flags.status
            && !flags.body && flags.decode ==> classify_reqwest(source, flags) == (
        RestClientError::ReqwestDecode { source }),
        !flags.timeout && !flags.connect && !flags.request && !flags.redirect && !flags.status
            && !flags.body && !flags.decode ==> classify_reqwest(source, flags) == (
        RestClientError::ReqwestOther { source }),
{
}

/// A transport failure is classified by what `reqwest` reports of it, in
/// priority order: timeout, then connect, then request, redirect, status,
/// body and decode, with `ReqwestOther` only when none is reported.
pub proof fn lemma_reqwest_error_by_predicates(source: reqwest::Error, error: RestClientError)
    requires
        error == classify_reqwest(source, reported_flags(source)),
    ensures
        reqwest_timeout_of(source) ==> error == (RestClientError::ReqwestTimeout { source }),
        !reqwest_timeout_of(source) && reqwest_connect_of(source) ==> error == (
        RestClientError::ReqwestConnect { source }),
        !reqwest_timeout_of(source) && !reqwest_connect_of(source) && reqwest_request_of(source)
            ==> error == (RestClientError::ReqwestRequest { source }),
        !reqwest_timeout_of(source) && !reqwest_connect_of(source) && !reqwest_request_of(source)
            && reqwest_redirect_of(source) ==> error == (RestClientError::ReqwestRedirect {
            source,
        }),
        !reqwest_timeout_of(source) && !reqwest_connect_of(source) && !reqwest_request_of(source)
            && !reqwest_redirect_of(source) && reqwest_status_of(source) ==> error == (
        RestClientError::ReqwestStatus { source }),
        !reqwest_timeout_of(source) && !reqwest_connect_of(source) && !reqwest_request_of(source)
            && !reqwest_redirect_of(source) && !reqwest_status_of(source) && reqwest_body_of(
            source,
        ) ==> error == (RestClientError::ReqwestBody { source }),
        !reqwest_timeout_of(source) && !reqwest_connect_of(source) && !reqwest_request_of(source)
            && !reqwest_redirect_of(source) && !reqwest_status_of(source) && !reqwest_body_of(
            source,
        ) && reqwest_decode_of(source) ==> error == (RestClientError::ReqwestDecode { source }),
        !reqwest_timeout_of(source) && !reqwest_connect_of(source) && !reqwest_request_of(source)
            && !reqwest_redirect_of(source) && !reqwest_status_of(source) && !reqwest_body_of(
            source,
        ) && !reqwest_decode_of(source) ==> error == (RestClientError::ReqwestOther { source }),
{
    lemma_reported_flags_answer_each_predicate(source);
    lemma_classification_priority(source, reported_flags(source));
}

/// Classifying a transport failure always keeps the failure as the source
/// of one of the `Reqwest*` variants, and yields `ReqwestOther` exactly when
/// `reqwest` reports none of the listed kinds.
pub proof fn lemma_classify_reqwest_keeps_source(source: reqwest::Error, flags: ReqwestErrorFlags)
    ensures
        classify_reqwest(source, flags).reqwest_source() == Some(source),
        classify_reqwest(source, flags) is ReqwestOther <==> !flags.timeout && !flags.connect
            && !flags.request && !flags.redirect && !flags.status && !flags.body && !flags.decode,
{
}

/// What `reqwest` reports of a transport failure: one flag per predicate.
pub open spec fn reported_flags(source: reqwest::Error) -> ReqwestErrorFlags {
    ReqwestErrorFlags {
        timeout: reqwest_timeout_of(source),
        connect: reqwest_connect_of(source),
        request: reqwest_request_of(source),
        redirect: reqwest_redirect_of(source),
        status: reqwest_status_of(source),
        body: reqwest_body_of(source),
        decode: reqwest_decode_of(source),
    }
}

/// Asks `reqwest` what it reports of a transport failure.
pub fn reqwest_error_flags(source: &reqwest::Error) -> (flags: ReqwestErrorFlags)
    ensures
        flags == reported_flags(*source),
        flags.timeout == reqwest_timeout_of(*source),
        flags.connect == reqwest_connect_of(*source),
        flags.request == reqwest_request_of(*source),
        flags.redirect == reqwest_redirect_of(*source),
        flags.status == reqwest_status_of(*source),
        flags.body == reqwest_body_of(*source),
        flags.decode == reqwest_decode_of(*source),
{
    ReqwestErrorFlags {
        timeout: source.is_timeout(),
        connect: source.is_connect(),
        request: source.is_request(),
        redirect: source.is_redirect(),
        status: source.is_status(),
        body: source.is_body(),
        decode: source.is_decode(),
    }
}

/// Classifies a transport failure given what `reqwest` reports of it.
pub fn reqwest_error_with_flags(source: reqwest::Error, flags: ReqwestErrorFlags) -> (error:
    RestClientError)
    ensures
        error == classify_reqwest(source, flags),
{
    if flags.timeout {
        RestClientError::ReqwestTimeout { source }
    } else if flags.connect {
        RestClientError::ReqwestConnect { source }
    } else if flags.request {
        RestClientError::ReqwestRequest { source }
    } else if flags.redirect {
        RestClientError::ReqwestRedirect { source }
    } else if flags.status {
        RestClientError::ReqwestStatus { source }
    } else if flags.body {
        RestClientError::ReqwestBody { source }
    } else if flags.decode {
        RestClientError::ReqwestDecode { source }
    } else {
        RestClientError::ReqwestOther { source }
    }
}

/// Classifies a transport failure by what `reqwest` reports of it; the
/// failure itself is kept as the error's source.
pub fn reqwest_error(source: reqwest::Error) -> (error: RestClientError)
    ensures
        error == classify_reqwest(source, reported_flags(source)),
        error.reqwest_source() == Some(source),
{
    let flags = reqwest_error_flags(&source);
    reqwest_error_with_flags(source, flags)
}

/// A response body that may carry the documented error fields.
pub trait ApiErrorBody: Sized {
    /// The error code and message that the body documents, if any.
    spec fn api_fields(&self) -> Option<(Seq<char>, Seq<char>)>;

    /// Takes the error code and message out of the body, if it has them.
    fn into_api_fields(self) -> (fields: Option<(String, String)>)
        ensures
            match fields {
                Some((code, message)) => self.api_fields() == Some((code@, message@)),
                None => self.api_fields() is None,
            },
    ;
}

/// A body-less error response documents nothing.
impl ApiErrorBody for () {
    open spec fn api_fields(&self) -> Option<(Seq<char>, Seq<char>)> {
        None
    }

    fn into_api_fields(self) -> (fields: Option<(String, String)>) {
        None
    }
}

/// The documented error body always carries its code and message.
impl ApiErrorBody for ApiError {
    open spec fn api_fields(&self) -> Option<(Seq<char>, Seq<char>)> {
        Some((self.error_code@, self.error_message@))
    }

    fn into_api_fields(self) -> (fields: Option<(String, String)>) {
        Some((self.error_code, self.error_message))
    }
}

/// The error for an error response with the given status, given the error
/// fields that its body documents.
pub fn error_response_error(status: reqwest::StatusCode, fields: Option<(String, String)>) -> (error:
    RestClientError)
    ensures
        match fields {
            Some((error_code, error_message)) => error == (RestClientError::ApiErrorResponse {
                status,
                error_code,
                error_message,
            }),
            None => error == (RestClientError::UndocumentedErrorResponse { status }),
        },
{
    match fields {
        Some((error_code, error_message)) => RestClientError::ApiErrorResponse {
            status,
            error_code,
            error_message,
        },
        None => RestClientError::UndocumentedErrorResponse { status },
    }
}

/// The variants of a `progenitor_client::Error`, as the library reads them.
#[verifier::reject_recursive_types(E)]
pub enum RestError<E> {
    InvalidRequest(String),
    CommunicationError(reqwest::Error),
    InvalidUpgrade(reqwest::Error),
    ErrorResponse { status: reqwest::StatusCode, body: E },
    ResponseBodyError(reqwest::Error),
    InvalidResponsePayload(serde_json::Error),
    UnexpectedResponse(reqwest::Response),
    Custom(String),
}

/// The variants of a `progenitor_client::Error<()>`, as
/// `unit_rest_error_variant` reads them.
pub uninterp spec fn unit_rest_error_variant_of(source: progenitor_client::Error<()>) -> RestError<()>;

/// The variants of a `progenitor_client::Error<ApiError>`, as
/// `api_rest_error_variant` reads them.
pub uninterp spec fn api_rest_error_variant_of(source: progenitor_client::Error<ApiError>) -> RestError<
    ApiError,
>;

/// Tells the variants of a `progenitor_client::Error<()>` apart, moving
/// their fields over (the raw bytes of an invalid payload are dropped, and
/// an error response is taken apart into its status and body). The
/// result depends on the error alone and is named
/// `unit_rest_error_variant_of`.
#[verifier::external_body]
fn unit_rest_error_variant(source: progenitor_client::Error<()>) -> (variant: RestError<()>)
    ensures
        variant == unit_rest_error_variant_of(source),
{
    match source {
        progenitor_client::Error::InvalidRequest(m) => RestError::InvalidRequest(m),
        progenitor_client::Error::CommunicationError(e) => RestError::CommunicationError(e),
        progenitor_client::Error::InvalidUpgrade(e) => RestError::InvalidUpgrade(e),
        progenitor_client::Error::ErrorResponse(r) => RestError::ErrorResponse {
            status: r.status(),
            body: r.into_inner(),
        },
        progenitor_client::Error::ResponseBodyError(e) => RestError::ResponseBodyError(e),
        progenitor_client::Error::InvalidResponsePayload(_, e) => RestError::InvalidResponsePayload(e),
        progenitor_client::Error::UnexpectedResponse(r) => RestError::UnexpectedResponse(r),
        progenitor_client::Error::Custom(m) => RestError::Custom(m),
    }
}

/// Tells the variants of a `progenitor_client::Error<ApiError>` apart,
/// moving their fields over (the raw bytes of an invalid payload are
/// dropped, and an error response is taken apart into its status and body). The result depends on the error alone and is named
/// `api_rest_error_variant_of`.
#[verifier::external_body]
fn api_rest_error_variant(source: progenitor_client::Error<ApiError>) -> (variant: RestError<
    ApiError,
>)
    ensures
        variant == api_rest_error_variant_of(source),
{
    match source {
        progenitor_client::Error::InvalidRequest(m) => RestError::InvalidRequest(m),
        progenitor_client::Error::CommunicationError(e) => RestError::CommunicationError(e),
        progenitor_client::Error::InvalidUpgrade(e) => RestError::InvalidUpgrade(e),
        progenitor_client::Error::ErrorResponse(r) => RestError::ErrorResponse {
            status: r.status(),
            body: r.into_inner(),
        },
        progenitor_client::Error::ResponseBodyError(e) => RestError::ResponseBodyError(e),
        progenitor_client::Error::InvalidResponsePayload(_, e) => RestError::InvalidResponsePayload(e),
        progenitor_client::Error::UnexpectedResponse(r) => RestError::UnexpectedResponse(r),
        progenitor_client::Error::Custom(m) => RestError::Custom(m),
    }
}

/// What a failed REST call turns into: the request and custom messages and
/// the payload error are kept, a transport failure is classified by what
/// `reqwest` reports of it, an unexpected response keeps its status, and an
/// error response keeps the fields that its body documents.
pub open spec fn rest_error_outcome<E: ApiErrorBody>(source: RestError<E>, error: RestClientError) -> bool {
    match source {
        RestError::InvalidRequest(message) => error == (RestClientError::InvalidRequest {
            message,
        }),
        RestError::CommunicationError(e) => error == classify_reqwest(e, reported_flags(e)),
        RestError::InvalidUpgrade(e) => error == classify_reqwest(e, reported_flags(e)),
        RestError::ResponseBodyError(e) => error == classify_reqwest(e, reported_flags(e)),
        RestError::ErrorResponse { status, body } => match body.api_fields() {
            Some((code, message)) => error matches RestClientError::ApiErrorResponse {
                status: s,
                error_code,
                error_message,
            } && s == status && error_code@ == code && error_message@ == message,
            None => error == (RestClientError::UndocumentedErrorResponse { status }),
        },
        RestError::InvalidResponsePayload(source) => error == (
        RestClientError::InvalidResponsePayload { source }),
        RestError::UnexpectedResponse(response) => error == (
        RestClientError::UnexpectedResponse { status: response_status_of(response) }),
        RestError::Custom(message) => error == (RestClientError::Custom { message }),
    }
}

/// Maps a failed REST call to a `RestClientError`, as `rest_error_outcome`
/// describes.
pub fn map_rest_error<E: ApiErrorBody>(source: RestError<E>) -> (error: RestClientError)
    ensures
        rest_error_outcome(source, error),
{
    match source {
        RestError::InvalidRequest(message) => RestClientError::InvalidRequest { message },
        RestError::CommunicationError(e) => reqwest_error(e),
        RestError::InvalidUpgrade(e) => reqwest_error(e),
        RestError::ResponseBodyError(e) => reqwest_error(e),
        RestError::ErrorResponse { status, body } => {
            let ghost documented = body.api_fields();
            let fields = body.into_api_fields();
            let ghost taken = fields;
            let error = error_response_error(status, fields);
            proof {
                match taken {
                    Some((code, message)) => {
                        assert(documented == Some((code@, message@)));
                    },
                    None => {
                        assert(documented is None);
                    },
                }
            }
            error
        },
        RestError::InvalidResponsePayload(source) => RestClientError::InvalidResponsePayload {
            source,
        },
        RestError::UnexpectedResponse(response) => RestClientError::UnexpectedResponse {
            status: response.status(),
        },
        RestError::Custom(message) => RestClientError::Custom { message },
    }
}

/// A failed REST call that carries a transport failure (a communication
/// error, an invalid upgrade or a failed response body) turns into the
/// classification of that failure by what `reqwest` reports of it, in
/// priority order: timeout, then connect, then request, redirect, status,
/// body and decode, with `ReqwestOther` only when none is reported.
pub proof fn lemma_rest_transport_failure_classified<E: ApiErrorBody>(
    source: RestError<E>,
    e: reqwest::Error,
    error: RestClientError,
)
    requires
        rest_error_outcome(source, error),
        source == RestError::<E>::CommunicationError(e) || source == RestError::<E>::InvalidUpgrade(e)
            || source == RestError::<E>::ResponseBodyError(e),
    ensures
        reqwest_timeout_of(e) ==> error == (RestClientError::ReqwestTimeout { source: e }),
        !reqwest_timeout_of(e) && reqwest_connect_of(e) ==> error == (RestClientError::ReqwestConnect { source: e }),
        !reqwest_timeout_of(e) && !reqwest_connect_of(e) && reqwest_request_of(e) ==> error == (RestClientError::ReqwestRequest { source: e }),
        !reqwest_timeout_of(e) && !reqwest_connect_of(e) && !reqwest_request_of(e) && reqwest_redirect_of(e) ==> error == (RestClientError::ReqwestRedirect { source: e }),
        !reqwest_timeout_of(e) && !reqwest_connect_of(e) && !reqwest_request_of(e) && !reqwest_redirect_of(e) && reqwest_status_of(e) ==> error == (RestClientError::ReqwestStatus { source: e }),
        !reqwest_timeout_of(e) && !reqwest_connect_of(e) && !reqwest_request_of(e) && !reqwest_redirect_of(e) && !reqwest_status_of(e) && reqwest_body_of(e) ==> error == (RestClientError::ReqwestBody { source: e }),
        !reqwest_timeout_of(e) && !reqwest_connect_of(e) && !reqwest_request_of(e) && !reqwest_redirect_of(e) && !reqwest_status_of(e) && !reqwest_body_of(e) && reqwest_decode_of(e) ==> error == (RestClientError::ReqwestDecode { source: e }),
        !reqwest_timeout_of(e) && !reqwest_connect_of(e) && !reqwest_request_of(e) && !reqwest_redirect_of(e) && !reqwest_status_of(e) && !reqwest_body_of(e) && !reqwest_decode_of(e) ==> error == (RestClientError::ReqwestOther { source: e }),
{
    lemma_reqwest_error_by_predicates(e, error);
}

impl RestClientError {
    /// Converts the error of a generated REST call whose error responses
    /// have no body, as `map_rest_error` maps its variant: such a response is
    /// always undocumented.
    pub fn from_rest_error(source: progenitor_client::Error<()>) -> (error: RestClientError)
        ensures
            rest_error_outcome(unit_rest_error_variant_of(source), error),
            !(error is ApiErrorResponse),
    {
        map_rest_error(unit_rest_error_variant(source))
    }

    /// Converts the error of a generated REST call whose error responses
    /// carry the documented error body, as `map_rest_error` maps its
    /// variant: such a response is always documented.
    pub fn from_api_rest_error(source: progenitor_client::Error<ApiError>) -> (error:
        RestClientError)
        ensures
            rest_error_outcome(api_rest_error_variant_of(source), error),
            !(error is UndocumentedErrorResponse),
    {
        map_rest_error(api_rest_error_variant(source))
    }
}

} // verus!
