use vstd::prelude::*;
use vstd::string::*;
use crate::symbols::Position;

verus! {

/// What a payload of `textDocument/hover` or `textDocument/definition` decodes
/// to: document identity, line, character; `None` where it fails the schema.
pub uninterp spec fn position_params_of(payload: Seq<char>) -> Option<(Seq<char>, u32, u32)>;

/// What a payload of `textDocument/didOpen` decodes to: document identity and text.
pub uninterp spec fn open_params_of(payload: Seq<char>) -> Option<(Seq<char>, Seq<char>)>;

/// What a payload of `textDocument/didChange` decodes to: document identity and
/// the texts of its content changes, in order.
pub uninterp spec fn change_params_of(payload: Seq<char>) -> Option<(Seq<char>, Seq<Seq<char>>)>;

/// What a payload of `textDocument/didClose` decodes to: document identity.
pub uninterp spec fn close_params_of(payload: Seq<char>) -> Option<Seq<char>>;

pub open spec fn strings_view(v: Seq<String>) -> Seq<Seq<char>> {
    v.map_values(|s: String| s@)
}

/// Relies on serde_json::from_str into lsp_types::TextDocumentPositionParams:
/// the outcome depends on the payload alone.
#[verifier::external_body]
pub fn decode_position_params(payload: &str) -> (r: Option<(String, u32, u32)>)
    ensures
        match r {
            Some(t) => position_params_of(payload@) == Some((t.0@, t.1, t.2)),
            None => position_params_of(payload@) is None,
        },
{
    serde_json::from_str::<lsp_types::TextDocumentPositionParams>(payload).ok().map(
        |p| (p.text_document.uri.to_string(), p.position.line, p.position.character),
    )
}

/// Relies on serde_json::from_str into lsp_types::DidOpenTextDocumentParams:
/// the outcome depends on the payload alone.
#[verifier::external_body]
pub fn decode_open_params(payload: &str) -> (r: Option<(String, String)>)
    ensures
        match r {
            Some(t) => open_params_of(payload@) == Some((t.0@, t.1@)),
            None => open_params_of(payload@) is None,
        },
{
    serde_json::from_str::<lsp_types::DidOpenTextDocumentParams>(payload).ok().map(
        |p| (p.text_document.uri.to_string(), p.text_document.text),
    )
}

/// Relies on serde_json::from_str into lsp_types::DidChangeTextDocumentParams:
/// the outcome depends on the payload alone.
#[verifier::external_body]
pub fn decode_change_params(payload: &str) -> (r: Option<(String, Vec<String>)>)
    ensures
        match r {
            Some(t) => change_params_of(payload@) == Some((t.0@, strings_view(t.1@))),
            None => change_params_of(payload@) is None,
        },
{
    serde_json::from_str::<lsp_types::DidChangeTextDocumentParams>(payload).ok().map(
        |p| (p.text_document.uri.to_string(), p.content_changes.into_iter().map(|c| c.text).collect()),
    )
}

/// Relies on serde_json::from_str into lsp_types::DidCloseTextDocumentParams:
/// the outcome depends on the payload alone.
#[verifier::external_body]
pub fn decode_close_params(payload: &str) -> (r: Option<String>)
    ensures
        match r {
            Some(t) => close_params_of(payload@) == Some(t@),
            None => close_params_of(payload@) is None,
        },
{
    serde_json::from_str::<lsp_types::DidCloseTextDocumentParams>(payload).ok().map(
        |p| p.text_document.uri.to_string(),
    )
}

/// Whether two texts are equal.
pub fn same_text(a: &str, b: &str) -> (r: bool)
    ensures
        r == (a@ == b@),
{
    let n = a.unicode_len();
    if n != b.unicode_len() {
        return false;
    }
    let mut i: usize = 0;
    while i < n
        invariant
            n == a@.len() == b@.len(),
            i <= n,
            forall|k: int| 0 <= k < i ==> a@[k] == b@[k],
        decreases n - i,
    {
        if a.get_char(i) != b.get_char(i) {
            return false;
        }
        i = i + 1;
    }
    assert(a@ =~= b@);
    true
}

pub open spec fn hover_method() -> Seq<char> {
    seq!['t', 'e', 'x', 't', 'D', 'o', 'c', 'u', 'm', 'e', 'n', 't', '/', 'h', 'o', 'v', 'e', 'r']
}

pub open spec fn definition_method() -> Seq<char> {
    seq!['t', 'e', 'x', 't', 'D', 'o', 'c', 'u', 'm', 'e', 'n', 't', '/', 'd', 'e', 'f', 'i', 'n', 'i', 't', 'i', 'o', 'n']
}

pub open spec fn did_open_method() -> Seq<char> {
    seq!['t', 'e', 'x', 't', 'D', 'o', 'c', 'u', 'm', 'e', 'n', 't', '/', 'd', 'i', 'd', 'O', 'p', 'e', 'n']
}

pub open spec fn did_change_method() -> Seq<char> {
    seq!['t', 'e', 'x', 't', 'D', 'o', 'c', 'u', 'm', 'e', 'n', 't', '/', 'd', 'i', 'd', 'C', 'h', 'a', 'n', 'g', 'e']
}

pub open spec fn did_close_method() -> Seq<char> {
    seq!['t', 'e', 'x', 't', 'D', 'o', 'c', 'u', 'm', 'e', 'n', 't', '/', 'd', 'i', 'd', 'C', 'l', 'o', 's', 'e']
}

/// Why a message could not be given a typed operation.
#[derive(Debug, Clone, Copy, PartialEq, Eq, Structural)]
pub enum ExtractError {
    /// The method is not one this server handles.
    MethodMismatch,
    /// The method is handled, but its payload does not fit the method's schema.
    DecodeError,
}

/// A query at a position of a document.
#[derive(Debug)]
pub struct PositionQuery {
    pub uri: String,
    pub position: Position,
}

/// The requests this server answers.
#[derive(Debug)]
pub enum SupportedMethods {
    GotoDefinition(PositionQuery),
    Hover(PositionQuery),
}

/// The notifications this server acts on.
#[derive(Debug)]
pub enum SupportedNotifications {
    DidOpenTextdocument { uri: String, text: String },
    DidChangeTextdocument { uri: String, text: String },
    DidCloseTextdocument { uri: String },
}

/// A classified request as plain values.
pub enum RequestModel {
    GotoDefinition(Seq<char>, Position),
    Hover(Seq<char>, Position),
}

/// A classified notification as plain values.
pub enum NotificationModel {
    DidOpen(Seq<char>, Seq<char>),
    DidChange(Seq<char>, Seq<char>),
    DidClose(Seq<char>),
}

impl View for SupportedMethods {
    type V = RequestModel;

    open spec fn view(&self) -> RequestModel {
        match self {
            SupportedMethods::GotoDefinition(q) => RequestModel::GotoDefinition(q.uri@, q.position),
            SupportedMethods::Hover(q) => RequestModel::Hover(q.uri@, q.position),
        }
    }
}

impl View for SupportedNotifications {
    type V = NotificationModel;

    open spec fn view(&self) -> NotificationModel {
        match self {
            SupportedNotifications::DidOpenTextdocument { uri, text } => NotificationModel::DidOpen(uri@, text@),
            SupportedNotifications::DidChangeTextdocument { uri, text } => NotificationModel::DidChange(uri@, text@),
            SupportedNotifications::DidCloseTextdocument { uri } => NotificationModel::DidClose(uri@),
        }
    }
}

pub open spec fn request_view(r: Result<SupportedMethods, ExtractError>) -> Result<RequestModel, ExtractError> {
    match r {
        Ok(m) => Ok(m@),
        Err(e) => Err(e),
    }
}

pub open spec fn notification_view(r: Result<SupportedNotifications, ExtractError>) -> Result<NotificationModel, ExtractError> {
    match r {
        Ok(m) => Ok(m@),
        Err(e) => Err(e),
    }
}

/// The request that `method` with a payload that decoded to `decoded` is.
pub open spec fn classify_request(method: Seq<char>, decoded: Option<(Seq<char>, u32, u32)>) -> Result<RequestModel, ExtractError> {
    if method != hover_method() && method != definition_method() {
        Err(ExtractError::MethodMismatch)
    } else {
        match decoded {
            None => Err(ExtractError::DecodeError),
            Some((uri, line, character)) => {
                let pos = Position { line, character };
                if method == hover_method() {
                    Ok(RequestModel::Hover(uri, pos))
                } else {
                    Ok(RequestModel::GotoDefinition(uri, pos))
                }
            },
        }
    }
}

/// The notification that `method` with payload `payload` is. A change carries
/// the whole new text as its last content change.
pub open spec fn classify_notification(method: Seq<char>, payload: Seq<char>) -> Result<NotificationModel, ExtractError> {
    if method == did_open_method() {
        match open_params_of(payload) {
            Some((uri, text)) => Ok(NotificationModel::DidOpen(uri, text)),
            None => Err(ExtractError::DecodeError),
        }
    } else if method == did_change_method() {
        match change_params_of(payload) {
            Some((uri, texts)) => if texts.len() > 0 {
                Ok(NotificationModel::DidChange(uri, texts.last()))
            } else {
                Err(ExtractError::DecodeError)
            },
            None => Err(ExtractError::DecodeError),
        }
    } else if method == did_close_method() {
        match close_params_of(payload) {
            Some(uri) => Ok(NotificationModel::DidClose(uri)),
            None => Err(ExtractError::DecodeError),
        }
    } else {
        Err(ExtractError::MethodMismatch)
    }
}

impl SupportedMethods {
    /// Classifies a request whose payload decoded to `decoded`.
    pub fn from_decoded(method: &str, decoded: Option<(String, u32, u32)>) -> (r: Result<SupportedMethods, ExtractError>)
        ensures
            request_view(r) == classify_request(
                method@,
                match decoded {
                    Some(t) => Some((t.0@, t.1, t.2)),
                    None => None,
                },
            ),
    {
        proof {
            reveal_strlit("textDocument/hover");
            reveal_strlit("textDocument/definition");
            assert("textDocument/hover"@ =~= hover_method());
            assert("textDocument/definition"@ =~= definition_method());
        }
        let hover = same_text(method, "textDocument/hover");
        if !hover && !same_text(method, "textDocument/definition") {
            return Err(ExtractError::MethodMismatch);
        }
        match decoded {
            None => Err(ExtractError::DecodeError),
            Some((uri, line, character)) => {
                let q = PositionQuery { uri, position: Position { line, character } };
                if hover {
                    Ok(SupportedMethods::Hover(q))
                } else {
                    Ok(SupportedMethods::GotoDefinition(q))
                }
            },
        }
    }

    /// Classifies request `method` with JSON payload `params`.
    pub fn try_from(method: &str, params: &str) -> (r: Result<SupportedMethods, ExtractError>)
        ensures
            request_view(r) == classify_request(method@, position_params_of(params@)),
    {
        let decoded = decode_position_params(params);
        SupportedMethods::from_decoded(method, decoded)
    }
}

impl SupportedNotifications {
    /// Classifies notification `method` with JSON payload `params`.
    pub fn try_from(method: &str, params: &str) -> (r: Result<SupportedNotifications, ExtractError>)
        ensures
            notification_view(r) == classify_notification(method@, params@),
    {
        proof {
            reveal_strlit("textDocument/didOpen");
            reveal_strlit("textDocument/didChange");
            reveal_strlit("textDocument/didClose");
            assert("textDocument/didOpen"@ =~= did_open_method());
            assert("textDocument/didChange"@ =~= did_change_method());
            assert("textDocument/didClose"@ =~= did_close_method());
        }
        if same_text(method, "textDocument/didOpen") {
            match decode_open_params(params) {
                Some((uri, text)) => Ok(SupportedNotifications::DidOpenTextdocument { uri, text }),
                None => Err(ExtractError::DecodeError),
            }
        } else if same_text(method, "textDocument/didChange") {
            match decode_change_params(params) {
                Some((uri, mut texts)) => {
                    let ghost all = strings_view(texts@);
                    match texts.pop() {
                    Some(text) => Ok(SupportedNotifications::DidChangeTextdocument { uri, text }),
                    None => Err(ExtractError::DecodeError),
                    }
                },
                None => Err(ExtractError::DecodeError),
            }
        } else if same_text(method, "textDocument/didClose") {
            match decode_close_params(params) {
                Some(uri) => Ok(SupportedNotifications::DidCloseTextdocument { uri }),
                None => Err(ExtractError::DecodeError),
            }
        } else {
            Err(ExtractError::MethodMismatch)
        }
    }
}

} // verus!
