//! Declarations of the outside types that the library carries, and the
//! contracts of the outside functions that it calls.
use vstd::prelude::*;

verus! {

/// `serde_json::Error`, carried opaquely inside the library's error values.
#[verifier::external_type_specification]
#[verifier::external_body]
pub struct ExJsonError(serde_json::Error);

/// `serde_json::Value`, carried opaquely as a dataref value.
#[verifier::external_type_specification]
#[verifier::external_body]
pub struct ExJsonValue(serde_json::Value);

/// `tungstenite::Error`, carried opaquely inside websocket errors.
#[verifier::external_type_specification]
#[verifier::external_body]
pub struct ExTungsteniteError(tokio_tungstenite::tungstenite::Error);

/// `std::str::Utf8Error`, carried opaquely inside websocket errors.
#[verifier::external_type_specification]
#[verifier::external_body]
pub struct ExUtf8Error(std::str::Utf8Error);

/// `<serde_json::Value as Clone>::clone`: `Value` derives `Clone`, so the
/// copy holds the same JSON value as the one it was made from.
pub assume_specification[ <serde_json::Value as Clone>::clone ](value: &serde_json::Value) -> (copy: serde_json::Value)
    ensures
        copy == *value,
;

/// The error that `std::str::from_utf8` reports for ill-formed bytes: where
/// the valid prefix ends and how long the invalid sequence is, both read off
/// the bytes.
pub uninterp spec fn utf8_error_for(bytes: Seq<u8>) -> core::str::Utf8Error;

/// `std::str::from_utf8`: succeeds exactly when the bytes are well-formed
/// UTF-8, and then yields the text that they encode; otherwise its error
/// depends on the bytes alone and is named `utf8_error_for`.
pub assume_specification[ core::str::from_utf8 ](v: &[u8]) -> (r: Result<&str, core::str::Utf8Error>)
    ensures
        r is Ok <==> vstd::utf8::valid_utf8(v@),
        r matches Ok(text) ==> text@ == vstd::utf8::decode_utf8(v@),
        r matches Err(e) ==> e == utf8_error_for(v@),
;

/// `reqwest::Error`, carried opaquely inside REST errors.
#[verifier::external_type_specification]
#[verifier::external_body]
pub struct ExReqwestError(reqwest::Error);

/// `reqwest::StatusCode`, carried opaquely inside REST errors.
#[verifier::external_type_specification]
#[verifier::external_body]
pub struct ExStatusCode(reqwest::StatusCode);

/// `reqwest::Response`, an undocumented response of the REST API.
#[verifier::external_type_specification]
#[verifier::external_body]
pub struct ExReqwestResponse(reqwest::Response);

/// `progenitor_client::Error`, the error of a generated REST call.
#[verifier::external_type_specification]
#[verifier::external_body]
#[verifier::reject_recursive_types(E)]
pub struct ExProgenitorError<E>(progenitor_client::Error<E>);

/// What `reqwest::Error::is_timeout` answers of an error; it reads only the
/// error's kind or source chain (a timeout anywhere in the chain).
pub uninterp spec fn reqwest_timeout_of(error: reqwest::Error) -> bool;

/// `reqwest::Error::is_timeout`: its answer is a function of the error alone,
/// named `reqwest_timeout_of`.
pub assume_specification[ reqwest::Error::is_timeout ](error: &reqwest::Error) -> (r: bool)
    ensures
        r == reqwest_timeout_of(*error),
;

/// What `reqwest::Error::is_connect` answers of an error; it reads only the
/// error's source chain (a failed connect in the chain).
pub uninterp spec fn reqwest_connect_of(error: reqwest::Error) -> bool;

/// `reqwest::Error::is_connect`: its answer is a function of the error alone,
/// named `reqwest_connect_of`.
pub assume_specification[ reqwest::Error::is_connect ](error: &reqwest::Error) -> (r: bool)
    ensures
        r == reqwest_connect_of(*error),
;

/// What `reqwest::Error::is_request` answers of an error; it reads only the
/// error's kind.
pub uninterp spec fn reqwest_request_of(error: reqwest::Error) -> bool;

/// `reqwest::Error::is_request`: its answer is a function of the error alone,
/// named `reqwest_request_of`.
pub assume_specification[ reqwest::Error::is_request ](error: &reqwest::Error) -> (r: bool)
    ensures
        r == reqwest_request_of(*error),
;

/// What `reqwest::Error::is_redirect` answers of an error; it reads only the
/// error's kind.
pub uninterp spec fn reqwest_redirect_of(error: reqwest::Error) -> bool;

/// `reqwest::Error::is_redirect`: its answer is a function of the error alone,
/// named `reqwest_redirect_of`.
pub assume_specification[ reqwest::Error::is_redirect ](error: &reqwest::Error) -> (r: bool)
    ensures
        r == reqwest_redirect_of(*error),
;

/// What `reqwest::Error::is_status` answers of an error; it reads only the
/// error's kind.
pub uninterp spec fn reqwest_status_of(error: reqwest::Error) -> bool;

/// `reqwest::Error::is_status`: its answer is a function of the error alone,
/// named `reqwest_status_of`.
pub assume_specification[ reqwest::Error::is_status ](error: &reqwest::Error) -> (r: bool)
    ensures
        r == reqwest_status_of(*error),
;

/// What `reqwest::Error::is_body` answers of an error; it reads only the
/// error's kind.
pub uninterp spec fn reqwest_body_of(error: reqwest::Error) -> bool;

/// `reqwest::Error::is_body`: its answer is a function of the error alone,
/// named `reqwest_body_of`.
pub assume_specification[ reqwest::Error::is_body ](error: &reqwest::Error) -> (r: bool)
    ensures
        r == reqwest_body_of(*error),
;

/// What `reqwest::Error::is_decode` answers of an error; it reads only the
/// error's kind.
pub uninterp spec fn reqwest_decode_of(error: reqwest::Error) -> bool;

/// `reqwest::Error::is_decode`: its answer is a function of the error alone,
/// named `reqwest_decode_of`.
pub assume_specification[ reqwest::Error::is_decode ](error: &reqwest::Error) -> (r: bool)
    ensures
        r == reqwest_decode_of(*error),
;

/// The status of a `reqwest::Response`, as `reqwest::Response::status`
/// reads it from the response.
pub uninterp spec fn response_status_of(response: reqwest::Response) -> reqwest::StatusCode;

/// `reqwest::Response::status`: the status that the response holds, named
/// `response_status_of`.
pub assume_specification[ reqwest::Response::status ](response: &reqwest::Response) -> (status:
    reqwest::StatusCode)
    ensures
        status == response_status_of(*response),
;

/// The text that `Display` writes for a `reqwest::Error`: its kind, the URL it concerns and its source.
pub uninterp spec fn reqwest_error_text(error: reqwest::Error) -> Seq<char>;

/// `Display` of `reqwest::Error` (through `ToString::to_string`): the text depends on
/// the value alone and is named `reqwest_error_text`.
#[verifier::external_body]
pub(crate) fn display_reqwest_error(error: &reqwest::Error) -> (text: String)
    ensures
        text@ == reqwest_error_text(*error),
{
    error.to_string()
}

/// The text that `Display` writes for a `reqwest::StatusCode`: its number and canonical reason.
pub uninterp spec fn status_code_text(error: reqwest::StatusCode) -> Seq<char>;

/// `Display` of `reqwest::StatusCode` (through `ToString::to_string`): the text depends on
/// the value alone and is named `status_code_text`.
#[verifier::external_body]
pub(crate) fn display_status_code(error: &reqwest::StatusCode) -> (text: String)
    ensures
        text@ == status_code_text(*error),
{
    error.to_string()
}

/// `Display` of `serde_json::Error` (through `ToString::to_string`). An
/// error that wraps an I/O error prints the operating system's message for
/// it, which differs between platforms and locales, so nothing is stated of
/// the text.
#[verifier::external_body]
pub(crate) fn display_json_error(error: &serde_json::Error) -> (text: String) {
    error.to_string()
}

/// `Display` of `tungstenite::Error` (through `ToString::to_string`). An I/O
/// error prints the operating system's message for it, which differs between
/// platforms and locales, so nothing is stated of the text.
#[verifier::external_body]
pub(crate) fn display_tungstenite_error(error: &tokio_tungstenite::tungstenite::Error) -> (text:
    String) {
    error.to_string()
}

/// The text that `Display` writes for a `std::str::Utf8Error`: where the invalid bytes start.
pub uninterp spec fn utf8_error_text(error: std::str::Utf8Error) -> Seq<char>;

/// `Display` of `std::str::Utf8Error` (through `ToString::to_string`): the text depends on
/// the value alone and is named `utf8_error_text`.
#[verifier::external_body]
pub(crate) fn display_utf8_error(error: &std::str::Utf8Error) -> (text: String)
    ensures
        text@ == utf8_error_text(*error),
{
    error.to_string()
}

} // verus!
