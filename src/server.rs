use vstd::prelude::*;
use crate::analyzer::{AnalysisError, analyzable, symbols_of};
use crate::documentlibrary::{DocumentLibrary, StoreModel, committed, closed, table_sound};
use crate::protocol::{
    ExtractError, NotificationModel, SupportedMethods, SupportedNotifications, classify_notification,
    classify_request, position_params_of,
};
use crate::queries::{definition_spec, hover_spec};

verus! {

/// The method named in the request is not handled.
pub const METHOD_NOT_FOUND: i32 = -32601;

/// The payload does not fit the method's schema.
pub const INVALID_PARAMS: i32 = -32602;

/// The answer could not be encoded.
pub const INTERNAL_ERROR: i32 = -32603;

/// An error answer to a request.
#[derive(Debug)]
pub struct ResponseError {
    pub code: i32,
    pub message: String,
}

/// The JSON text of a hover answer whose contents are the plain string `text`.
pub uninterp spec fn hover_json_of(text: Seq<char>) -> Option<Seq<char>>;

/// The JSON text of a definition answer: the document `uri` and the range from
/// (`start_line`, `start_character`) to (`end_line`, `end_character`).
pub uninterp spec fn location_json_of(
    uri: Seq<char>,
    start_line: u32,
    start_character: u32,
    end_line: u32,
    end_character: u32,
) -> Option<Seq<char>>;

/// Relies on serde_json::to_string of an lsp_types::Hover with the plain string
/// `text` as its contents: the outcome depends on `text` alone.
#[verifier::external_body]
fn encode_hover(text: &str) -> (r: Option<String>)
    ensures
        match r {
            Some(j) => hover_json_of(text@) == Some(j@),
            None => hover_json_of(text@) is None,
        },
{
    let contents = lsp_types::HoverContents::Scalar(lsp_types::MarkedString::String(text.to_string()));
    serde_json::to_string(&lsp_types::Hover { contents, range: None }).ok()
}

/// Relies on serde_json::to_string of an lsp_types::GotoDefinitionResponse that
/// holds one lsp_types::Location, whose uri is `uri` as lsp_types::Url::parse
/// reads it: the outcome depends on the arguments alone.
#[verifier::external_body]
fn encode_location(uri: &str, start_line: u32, start_character: u32, end_line: u32, end_character: u32) -> (r:
    Option<String>)
    ensures
        match r {
            Some(j) => location_json_of(uri@, start_line, start_character, end_line, end_character) == Some(j@),
            None => location_json_of(uri@, start_line, start_character, end_line, end_character) is None,
        },
{
    let url = lsp_types::Url::parse(uri).ok()?;
    let range = lsp_types::Range::new(
        lsp_types::Position::new(start_line, start_character),
        lsp_types::Position::new(end_line, end_character),
    );
    serde_json::to_string(&lsp_types::GotoDefinitionResponse::Scalar(lsp_types::Location::new(url, range))).ok()
}

/// The answer that an encoding gives: its JSON text, or an internal error where it failed.
pub open spec fn encoded_outcome(encoded: Option<Seq<char>>) -> Result<Option<Seq<char>>, i32> {
    match encoded {
        Some(j) => Ok(Some(j)),
        None => Err(INTERNAL_ERROR),
    }
}

/// The answer to request `method` with payload `payload` on store `m`: a JSON
/// text, null, or an error code. A query on a closed or unknown document has
/// the null answer.
pub open spec fn request_outcome(m: StoreModel, method: Seq<char>, payload: Seq<char>) -> Result<Option<Seq<char>>, i32> {
    match classify_request(method, position_params_of(payload)) {
        Err(ExtractError::MethodMismatch) => Err(METHOD_NOT_FOUND),
        Err(ExtractError::DecodeError) => Err(INVALID_PARAMS),
        Ok(crate::protocol::RequestModel::Hover(uri, pos)) => match hover_spec(m, uri, pos) {
            Ok(Some(t)) => encoded_outcome(hover_json_of(t)),
            _ => Ok(None),
        },
        Ok(crate::protocol::RequestModel::GotoDefinition(uri, pos)) => match definition_spec(m, uri, pos) {
            Ok(Some(rg)) => encoded_outcome(
                location_json_of(uri, rg.start.line, rg.start.character, rg.end.line, rg.end.character),
            ),
            _ => Ok(None),
        },
    }
}

pub open spec fn reply_view(r: Result<Option<String>, ResponseError>) -> Result<Option<Seq<char>>, i32> {
    match r {
        Ok(Some(j)) => Ok(Some(j@)),
        Ok(None) => Ok(None),
        Err(e) => Err(e.code),
    }
}

/// The answer that the outcome `encoded` of an encoding gives.
pub fn encoded_reply(encoded: Option<String>) -> (r: Result<Option<String>, ResponseError>)
    ensures
        reply_view(r) == encoded_outcome(
            match encoded {
                Some(j) => Some(j@),
                None => None,
            },
        ),
{
    match encoded {
        Some(j) => Ok(Some(j)),
        None => Err(ResponseError { code: INTERNAL_ERROR, message: String::from_str("the answer could not be encoded") }),
    }
}

/// Answers request `method` with JSON payload `params` from the documents in `lib`.
pub fn handle_request(lib: &DocumentLibrary, method: &str, params: &str) -> (r: Result<Option<String>, ResponseError>)
    requires
        lib.wf(),
    ensures
        reply_view(r) == request_outcome(lib@, method@, params@),
{
    match SupportedMethods::try_from(method, params) {
        Err(ExtractError::MethodMismatch) => Err(ResponseError {
            code: METHOD_NOT_FOUND,
            message: String::from_str("method not found"),
        }),
        Err(ExtractError::DecodeError) => Err(ResponseError {
            code: INVALID_PARAMS,
            message: String::from_str("invalid params"),
        }),
        Ok(SupportedMethods::Hover(q)) => match lib.hover(&q.uri, q.position) {
            Ok(Some(t)) => encoded_reply(encode_hover(t.as_str())),
            _ => Ok(None),
        },
        Ok(SupportedMethods::GotoDefinition(q)) => match lib.goto_definition(&q.uri, q.position) {
            Ok(Some(l)) => encoded_reply(
                encode_location(
                    l.uri.as_str(),
                    l.range.start.line,
                    l.range.start.character,
                    l.range.end.line,
                    l.range.end.character,
                ),
            ),
            _ => Ok(None),
        },
    }
}

/// What became of a notification. None of them is answered.
#[derive(Debug, Clone, Copy, PartialEq, Eq, Structural)]
pub enum NotificationOutcome {
    /// The store was changed, and the document indexed where it was opened or changed.
    Applied,
    /// The text was stored, but indexing failed and the previous table was kept.
    IndexKept(AnalysisError),
    /// A change of a document that is not open: nothing changed.
    NotOpen,
    /// A notification this server does not handle: nothing changed.
    Ignored,
    /// A handled notification whose payload does not fit: nothing changed.
    Invalid,
}

/// `m1` is `m0` after `id` was given `text` and indexed; `kept` says that
/// indexing failed and the previous table stayed.
pub open spec fn reindexed(m0: StoreModel, m1: StoreModel, id: Seq<char>, text: Seq<char>, kept: bool) -> bool {
    &&& kept <==> !analyzable(text)
    &&& kept ==> m1 == committed(m0, id, text, None)
    &&& !kept ==> m1 == committed(m0, id, text, Some(symbols_of(text)))
    &&& !kept ==> table_sound(text, symbols_of(text))
}

/// What notification `method` with payload `payload` does to store `m0`, giving `m1` and `r`.
pub open spec fn notification_effect(m0: StoreModel, m1: StoreModel, method: Seq<char>, payload: Seq<char>, r: NotificationOutcome) -> bool {
    match classify_notification(method, payload) {
        Err(ExtractError::MethodMismatch) => r == NotificationOutcome::Ignored && m1 == m0,
        Err(ExtractError::DecodeError) => r == NotificationOutcome::Invalid && m1 == m0,
        Ok(NotificationModel::DidOpen(id, text)) => (r is Applied || r is IndexKept) && reindexed(m0, m1, id, text, r is IndexKept),
        Ok(NotificationModel::DidChange(id, text)) => if m0.texts.contains_key(id) {
            (r is Applied || r is IndexKept) && reindexed(m0, m1, id, text, r is IndexKept)
        } else {
            r == NotificationOutcome::NotOpen && m1 == m0
        },
        Ok(NotificationModel::DidClose(id)) => r == NotificationOutcome::Applied && m1 == closed(m0, id),
    }
}

fn index_outcome(a: Result<(), AnalysisError>) -> (r: NotificationOutcome)
    ensures
        match a {
            Ok(_) => r == NotificationOutcome::Applied,
            Err(e) => r == NotificationOutcome::IndexKept(e),
        },
{
    match a {
        Ok(_) => NotificationOutcome::Applied,
        Err(e) => NotificationOutcome::IndexKept(e),
    }
}

/// Applies notification `method` with JSON payload `params` to `lib`.
pub fn handle_notification(lib: &mut DocumentLibrary, method: &str, params: &str) -> (r: NotificationOutcome)
    requires
        old(lib).wf(),
    ensures
        final(lib).wf(),
        notification_effect(old(lib)@, final(lib)@, method@, params@, r),
{
    match SupportedNotifications::try_from(method, params) {
        Err(ExtractError::MethodMismatch) => NotificationOutcome::Ignored,
        Err(ExtractError::DecodeError) => NotificationOutcome::Invalid,
        Ok(SupportedNotifications::DidOpenTextdocument { uri, text }) => index_outcome(lib.open(uri, text)),
        Ok(SupportedNotifications::DidChangeTextdocument { uri, text }) => match lib.replace(uri, text) {
            Err(_) => NotificationOutcome::NotOpen,
            Ok(a) => index_outcome(a),
        },
        Ok(SupportedNotifications::DidCloseTextdocument { uri }) => {
            lib.close(&uri);
            NotificationOutcome::Applied
        },
    }
}

} // verus!
