//! The boundary to the outside crates: payload decoding, URI handling,
//! archive reading and text decoding.
//!
//! Nothing in this module is proved. Each item states what the named outside
//! function is taken to do.

use vstd::prelude::*;
use lsp_server::{ExtractError, RequestId};
use lsp_types::Uri;
use serde_json::Value;
use crate::identity::{client_view, ClientInfo, ClientModel};
use crate::install::{Extraction, ExtractionModel};
use crate::message::{CommandCall, Request};

verus! {

/// `serde_json::Value`, a JSON document, carried through uninspected.
#[verifier::external_type_specification]
#[verifier::external_body]
pub struct ExValue(Value);

/// `serde_json::Error`, the reason a payload failed to decode.
#[verifier::external_type_specification]
#[verifier::external_body]
pub struct ExJsonError(serde_json::Error);

/// `lsp_server::RequestId`, the correlation id of a request.
#[verifier::external_type_specification]
#[verifier::external_body]
pub struct ExRequestId(RequestId);

/// `lsp_types::Uri`, a parsed document URI.
#[verifier::external_type_specification]
#[verifier::external_body]
pub struct ExUri(Uri);

/// Method name of the execute-command request.
pub open spec fn execute_command_method() -> Seq<char> {
    "workspace/executeCommand"@
}

/// The longest text, in bytes, that can be parsed as a URI.
pub open spec fn uri_limit() -> usize {
    0x7fff_ffff
}

/// The length of a text in bytes, as `str::len` reports it.
pub open spec fn byte_len(text: Seq<char>) -> usize {
    vstd::utf8::encode_utf8(text).len() as usize
}

/// What came of trying a request against one method.
pub enum RequestCast<T> {
    /// The request has the method; its payload decoded.
    Params { id: RequestId, params: T },
    /// The request has the method; its payload did not decode.
    Malformed { method: String, error: serde_json::Error },
    /// The request has another method and is handed back.
    Mismatch(Request),
}

/// The command name that `serde_json::from_value` decodes from a payload as
/// `lsp_types::ExecuteCommandParams`; none where the payload does not
/// decode.
pub uninterp spec fn command_name_in(params: Value) -> Option<Seq<char>>;

/// The client info that `serde` decodes from the member `key` of a payload
/// as an optional `lsp_types::ClientInfo`; none where the member does not
/// decode. A payload without the member holds no client info.
pub uninterp spec fn client_info_at_of(params: Value, key: Seq<char>) -> Option<
    Option<ClientModel>,
>;

/// The string that `serde_json::Value::pointer` finds in a payload at a
/// JSON pointer; none where nothing stands there, or no string.
pub uninterp spec fn text_at_of(params: Value, pointer: Seq<char>) -> Option<Seq<char>>;

/// The URI that `lsp_types::Uri::from_str` parses from a text; none where
/// the text is no URI.
pub uninterp spec fn uri_of(text: Seq<char>) -> Option<Uri>;

/// The path component of a URI, as `fluent_uri::Uri::path` gives it.
pub uninterp spec fn path_of(uri: Uri) -> Seq<char>;

/// What `zip::ZipArchive` finds as the entry at an index of an archive: a
/// name for the outcome of reading the bytes with `ZipArchive::new`,
/// opening the entry with `ZipArchive::by_index` and reading it to its end.
pub uninterp spec fn entry_of(archive: Seq<u8>, index: usize) -> ExtractionModel;

/// Calls `lsp_server::Request::extract` for
/// `lsp_types::request::ExecuteCommand`.
///
/// `extract` compares the method name with `"workspace/executeCommand"`; on
/// a mismatch it returns the request itself, otherwise it decodes the
/// payload and returns either the id with the parameters or the method name
/// with the JSON error. The command name and its arguments are kept. What
/// the payload decodes to depends on the payload alone.
#[verifier::external_body]
pub(crate) fn cast_execute_command(req: Request) -> (cast: RequestCast<CommandCall>)
    ensures
        cast matches RequestCast::Params { id, params } ==> req.method@
            == execute_command_method() && id == req.id && command_name_in(req.params) == Some(
            params.name@,
        ),
        cast matches RequestCast::Malformed { method, .. } ==> req.method@
            == execute_command_method() && method@ == req.method@ && command_name_in(req.params)
            is None,
        cast matches RequestCast::Mismatch(back) ==> req.method@ != execute_command_method()
            && back == req,
{
    let raw = lsp_server::Request { id: req.id, method: req.method, params: req.params };
    let method = <lsp_types::request::ExecuteCommand as lsp_types::request::Request>::METHOD;
    match raw.extract::<lsp_types::ExecuteCommandParams>(method) {
        Ok((id, params)) => RequestCast::Params {
            id,
            params: CommandCall { name: params.command, arguments: params.arguments },
        },
        Err(ExtractError::JsonError { method, error }) => RequestCast::Malformed { method, error },
        Err(ExtractError::MethodMismatch(r)) => RequestCast::Mismatch(
            Request { id: r.id, method: r.method, params: r.params },
        ),
    }
}

/// Indexes the payload with `key` and decodes what stands there as an
/// optional `lsp_types::ClientInfo`, through `serde::Deserialize`.
///
/// Indexing a `serde_json::Value` gives null where the payload is no object
/// or lacks the key, and null decodes to no client info. A client info
/// holds a name and an optional version, both strings. The outcome depends
/// on the payload and the key alone.
#[verifier::external_body]
pub(crate) fn client_info_at(params: &Value, key: &str) -> (decoded: Result<
    Option<ClientInfo>,
    serde_json::Error,
>)
    ensures
        decoded matches Ok(client) ==> client_info_at_of(*params, key@) == Some(
            client_view(client),
        ),
        decoded is Err ==> client_info_at_of(*params, key@) is None,
{
    let found = <Option<lsp_types::ClientInfo> as serde::Deserialize>::deserialize(&params[key]);
    found.map(|info| info.map(|c| ClientInfo { name: c.name, version: c.version }))
}

/// Calls `serde_json::Value::pointer` and copies out the string that stands
/// there, which `Value::as_str` gives. The outcome depends on the payload
/// and the pointer alone.
#[verifier::external_body]
pub(crate) fn text_at(params: &Value, pointer: &str) -> (text: Option<String>)
    ensures
        text.deep_view() == text_at_of(*params, pointer@),
{
    params.pointer(pointer).and_then(|found| found.as_str()).map(|text| text.to_owned())
}

/// Calls `lsp_types::Uri::from_str`, which parses the borrowed text with
/// `fluent_uri::Uri::parse` and copies the result.
///
/// `parse` panics on a text of more than `i32::MAX` bytes and on no other;
/// such a text is kept out. The outcome depends on the text alone.
#[verifier::external_body]
pub(crate) fn parse_uri(text: &str) -> (uri: Option<Uri>)
    requires
        byte_len(text@) <= uri_limit(),
    ensures
        uri == uri_of(text@),
{
    <Uri as std::str::FromStr>::from_str(text).ok()
}

/// Calls `fluent_uri::Uri::path` through `lsp_types::Uri` and copies the
/// path component out as text. The path depends on the URI alone; nothing
/// more is claimed of it.
#[verifier::external_body]
pub(crate) fn uri_path(uri: &Uri) -> (path: String)
    ensures
        path@ == path_of(*uri),
{
    uri.path().as_str().to_owned()
}

/// Calls `zip::ZipArchive::new` on the bytes, then `ZipArchive::by_index`,
/// and reads the entry to its end.
///
/// The outcome depends on the bytes and the index alone. `by_index` answers
/// an index at which no entry stands with `ZipError::FileNotFound`, which is
/// told apart from every other failure; nothing more is claimed of the
/// outcome.
#[verifier::external_body]
pub(crate) fn entry_at(archive: &Vec<u8>, index: usize) -> (extraction: Extraction)
    ensures
        extraction@ == entry_of(archive@, index),
{
    let mut zip = match zip::ZipArchive::new(std::io::Cursor::new(archive.as_slice())) {
        Ok(zip) => zip,
        Err(_) => return Extraction::NotAnArchive,
    };
    let mut entry = match zip.by_index(index) {
        Ok(entry) => entry,
        Err(zip::result::ZipError::FileNotFound) => return Extraction::NoEntry,
        Err(_) => return Extraction::NotAnArchive,
    };
    let mut bytes = Vec::new();
    match std::io::Read::read_to_end(&mut entry, &mut bytes) {
        Ok(_) => Extraction::Entry(bytes),
        Err(_) => Extraction::NotAnArchive,
    }
}

/// Calls `String::from_utf8`.
///
/// The call succeeds exactly on well-formed UTF-8, and the string it then
/// returns encodes to the bytes given.
#[verifier::external_body]
pub(crate) fn text_from_utf8(bytes: Vec<u8>) -> (text: Option<String>)
    ensures
        text is Some <==> vstd::utf8::valid_utf8(bytes@),
        text matches Some(t) ==> vstd::utf8::encode_utf8(t@) == bytes@,
{
    String::from_utf8(bytes).ok()
}

} // verus!
