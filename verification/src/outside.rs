//! What the library takes from other crates without proof.
use crate::message::{ListToolsResult, ListToolsView, RequestId};
use vstd::prelude::*;

verus! {

/// A tool of a server, passed on as it is.
#[verifier::external_type_specification]
#[verifier::external_body]
pub struct ExTool(rmcp::model::Tool);

/// The body of a client's request, passed on as it is.
#[verifier::external_type_specification]
#[verifier::external_body]
pub struct ExClientRequest(rmcp::model::ClientRequest);

/// The body of a client's notification, passed on as it is.
#[verifier::external_type_specification]
#[verifier::external_body]
pub struct ExClientNotification(rmcp::model::ClientNotification);

/// The result in a client's response, passed on as it is.
#[verifier::external_type_specification]
#[verifier::external_body]
pub struct ExClientResult(rmcp::model::ClientResult);

/// The body of a server's request, passed on as it is.
#[verifier::external_type_specification]
#[verifier::external_body]
pub struct ExServerRequest(rmcp::model::ServerRequest);

/// The body of a server's notification, passed on as it is.
#[verifier::external_type_specification]
#[verifier::external_body]
pub struct ExServerNotification(rmcp::model::ServerNotification);

/// The result in a server's response, passed on as it is.
#[verifier::external_type_specification]
#[verifier::external_body]
pub struct ExServerResult(rmcp::model::ServerResult);

/// The code and text of a JSON-RPC error, passed on as they are.
#[verifier::external_type_specification]
#[verifier::external_body]
pub struct ExErrorData(rmcp::model::ErrorData);

/// What a server can do, passed on as it is.
#[verifier::external_type_specification]
#[verifier::external_body]
pub struct ExServerCapabilities(rmcp::model::ServerCapabilities);

/// An icon of a server, passed on as it is.
#[verifier::external_type_specification]
#[verifier::external_body]
pub struct ExIcon(rmcp::model::Icon);

/// Why a JSON text was not read or written.
#[verifier::external_type_specification]
#[verifier::external_body]
pub struct ExJsonError(serde_json::Error);

/// `rmcp::model::Tool::clone`: the copy is the same tool.
pub assume_specification[ <rmcp::model::Tool as Clone>::clone ](
    tool: &rmcp::model::Tool,
) -> (copy: rmcp::model::Tool)
    ensures
        copy == *tool,
;

/// `rmcp::model::ClientRequest::clone`: the copy is the same request.
pub assume_specification[ <rmcp::model::ClientRequest as Clone>::clone ](
    request: &rmcp::model::ClientRequest,
) -> (copy: rmcp::model::ClientRequest)
    ensures
        copy == *request,
;

/// `std::string::String::push`: appends one character.
pub assume_specification[ String::push ](text: &mut String, ch: char)
    ensures
        final(text)@ == old(text)@.push(ch),
;

/// `rmcp::model::NumberOrString::to_string`: a numeric identifier is written in
/// decimal, with a minus sign where it is negative, and a textual one as it is.
#[verifier::external_body]
pub(crate) fn request_id_text(id: &RequestId) -> (text: String)
    ensures
        text@ == id@.key(),
{
    match id {
        RequestId::Number(n) => rmcp::model::NumberOrString::Number(*n).to_string(),
        RequestId::Text(t) => rmcp::model::NumberOrString::String(t.as_str().into()).to_string(),
    }
}

/// The tools that a JSON text holds as a whole `tools/list` result; none where it
/// does not hold one.
pub uninterp spec fn tools_result_in(json: Seq<char>) -> Option<ListToolsView>;

/// `serde_json::from_str` for `rmcp::model::ListToolsResult`: what it returns is a
/// function of the text, named [`tools_result_in`].
#[verifier::external_body]
pub(crate) fn tools_result_from_str(json: &str) -> (r: Result<ListToolsResult, serde_json::Error>)
    ensures
        match r {
            Ok(result) => tools_result_in(json@) == Some(result@),
            Err(_) => tools_result_in(json@) is None,
        },
{
    serde_json::from_str::<rmcp::model::ListToolsResult>(json).map(
        |result| ListToolsResult { tools: result.tools, next_cursor: result.next_cursor },
    )
}

/// The tools that a JSON text holds as a bare array; none where it does not hold
/// one.
pub uninterp spec fn tools_array_in(json: Seq<char>) -> Option<Seq<rmcp::model::Tool>>;

/// `serde_json::from_str` for a vector of `rmcp::model::Tool`: what it returns is a
/// function of the text, named [`tools_array_in`].
#[verifier::external_body]
pub(crate) fn tools_array_from_str(json: &str) -> (r: Result<
    Vec<rmcp::model::Tool>,
    serde_json::Error,
>)
    ensures
        match r {
            Ok(tools) => tools_array_in(json@) == Some(tools@),
            Err(_) => tools_array_in(json@) is None,
        },
{
    serde_json::from_str::<Vec<rmcp::model::Tool>>(json)
}

/// The tools that the bytes of a file hold as a whole `tools/list` result; none
/// where they do not hold one.
pub uninterp spec fn tools_result_in_bytes(bytes: Seq<u8>) -> Option<ListToolsView>;

/// `serde_json::from_slice` for `rmcp::model::ListToolsResult`: what it returns is a
/// function of the bytes, named [`tools_result_in_bytes`].
#[verifier::external_body]
pub(crate) fn tools_result_from_slice(bytes: &[u8]) -> (r: Result<
    ListToolsResult,
    serde_json::Error,
>)
    ensures
        match r {
            Ok(result) => tools_result_in_bytes(bytes@) == Some(result@),
            Err(_) => tools_result_in_bytes(bytes@) is None,
        },
{
    serde_json::from_slice::<rmcp::model::ListToolsResult>(bytes).map(
        |result| ListToolsResult { tools: result.tools, next_cursor: result.next_cursor },
    )
}

/// The bytes that a `tools/list` result is written as; none where it cannot be
/// written.
pub uninterp spec fn bytes_of_tools_result(result: ListToolsView) -> Option<Seq<u8>>;

/// Whether some bytes hold a `tools/list` result.
pub open spec fn readable(result: ListToolsView) -> bool {
    exists|bytes: Seq<u8>| #[trigger] tools_result_in_bytes(bytes) == Some(result)
}

/// `serde_json::to_vec_pretty` for `rmcp::model::ListToolsResult`: what it returns is
/// a function of the result, named [`bytes_of_tools_result`]. A [`readable`] result is
/// written, and the bytes that it is written as hold that same result: numbers keep
/// their value, since `serde_json` is built with `float_roundtrip`. A result that is
/// not readable is one whose schemas nest deeper than the reader goes.
#[verifier::external_body]
pub(crate) fn tools_result_to_vec(result: &ListToolsResult) -> (r: Result<
    Vec<u8>,
    serde_json::Error,
>)
    ensures
        match r {
            Ok(bytes) => bytes_of_tools_result(result@) == Some(bytes@),
            Err(_) => bytes_of_tools_result(result@) is None,
        },
        match r {
            Ok(bytes) => readable(result@) ==> tools_result_in_bytes(bytes@) == Some(result@),
            Err(_) => !readable(result@),
        },
{
    serde_json::to_vec_pretty(
        &rmcp::model::ListToolsResult {
            tools: result.tools.clone(),
            next_cursor: result.next_cursor.clone(),
        },
    )
}

} // verus!
