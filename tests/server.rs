use symbol_server::analyzer::{AnalysisError, SymbolParser};
use symbol_server::documentlibrary::{DocumentLibrary, StoreError};
use symbol_server::lifecycle::{request_event, notification_event, step, Action, Event, ServerState};
use symbol_server::protocol::{ExtractError, SupportedMethods, SupportedNotifications};
use symbol_server::queries::QueryError;
use symbol_server::server::{
    handle_notification, handle_request, NotificationOutcome, INVALID_PARAMS, METHOD_NOT_FOUND,
};
use symbol_server::symbols::Position;

const DOC1: &str = "file:///doc1";

fn pos(line: u32, character: u32) -> Position {
    Position { line, character }
}

fn doc1() -> String {
    DOC1.to_string()
}

fn opened() -> DocumentLibrary {
    let mut lib = DocumentLibrary::new();
    assert_eq!(lib.open(doc1(), "function foo() {}\n".to_string()), Ok(()));
    lib
}

fn position_payload(line: u32, character: u32) -> String {
    format!(
        "{{\"textDocument\":{{\"uri\":\"{}\"}},\"position\":{{\"line\":{},\"character\":{}}}}}",
        DOC1, line, character
    )
}

fn change_payload(text: &str) -> String {
    format!(
        "{{\"textDocument\":{{\"uri\":\"{}\",\"version\":2}},\"contentChanges\":[{{\"text\":\"{}\"}}]}}",
        DOC1, text
    )
}

#[test]
fn open_indexes_and_hovers() {
    let lib = opened();
    let book = lib.table(&doc1()).unwrap();
    assert_eq!(book.functions.len(), 1);
    assert_eq!(book.functions[0].name, "foo");
    assert_eq!(book.functions[0].position, pos(0, 9));
    assert!(book.local_vars.is_empty());
    assert!(book.global_vars.is_empty());
    assert_eq!(lib.hover(&doc1(), pos(0, 9)), Ok(Some("function foo".to_string())));
    assert_eq!(lib.hover(&doc1(), pos(5, 0)), Ok(None));
}

#[test]
fn goto_definition_at_declaration() {
    let lib = opened();
    let loc = lib.goto_definition(&doc1(), pos(0, 9)).unwrap().unwrap();
    assert_eq!(loc.uri, DOC1);
    assert_eq!(loc.range.start, pos(0, 9));
    assert_eq!(loc.range.end, pos(0, 9));
    assert!(lib.goto_definition(&doc1(), pos(0, 0)).unwrap().is_none());
}

#[test]
fn goto_definition_request_json() {
    let lib = opened();
    let r = handle_request(&lib, "textDocument/definition", &position_payload(0, 9)).unwrap().unwrap();
    assert_eq!(
        r,
        "{\"uri\":\"file:///doc1\",\"range\":{\"start\":{\"line\":0,\"character\":9},\"end\":{\"line\":0,\"character\":9}}}"
    );
}

#[test]
fn hover_request_json() {
    let lib = opened();
    let r = handle_request(&lib, "textDocument/hover", &position_payload(0, 9)).unwrap().unwrap();
    assert_eq!(r, "{\"contents\":\"function foo\"}");
    assert_eq!(handle_request(&lib, "textDocument/hover", &position_payload(5, 0)).unwrap(), None);
}

#[test]
fn unknown_method_then_continue() {
    let lib = opened();
    let e = handle_request(&lib, "textDocument/unknownThing", &position_payload(0, 9)).unwrap_err();
    assert_eq!(e.code, METHOD_NOT_FOUND);
    assert_eq!(e.code, -32601);
    let r = handle_request(&lib, "textDocument/hover", &position_payload(0, 9)).unwrap();
    assert!(r.is_some());
}

#[test]
fn failed_change_keeps_index() {
    let mut lib = opened();
    assert_eq!(
        lib.replace(doc1(), "garbage{{{".to_string()),
        Ok(Err(AnalysisError::UnbalancedBraces))
    );
    assert_eq!(lib.snapshot(&doc1()), Some("garbage{{{".to_string()));
    assert_eq!(lib.hover(&doc1(), pos(0, 9)), Ok(Some("function foo".to_string())));
}

#[test]
fn failed_change_notification_keeps_index() {
    let mut lib = opened();
    let r = handle_notification(&mut lib, "textDocument/didChange", &change_payload("garbage{{{"));
    assert_eq!(r, NotificationOutcome::IndexKept(AnalysisError::UnbalancedBraces));
    assert_eq!(lib.hover(&doc1(), pos(0, 9)), Ok(Some("function foo".to_string())));
}

#[test]
fn hover_after_change_sees_new_text() {
    let mut lib = opened();
    let r = handle_notification(&mut lib, "textDocument/didChange", &change_payload("\\n\\nfunction bar() {}"));
    assert_eq!(r, NotificationOutcome::Applied);
    assert_eq!(lib.hover(&doc1(), pos(0, 9)), Ok(None));
    assert_eq!(lib.hover(&doc1(), pos(2, 9)), Ok(Some("function bar".to_string())));
}

#[test]
fn repeated_change_gives_same_table() {
    let mut lib = opened();
    let text = "var g = 1;\nfunction f() { let x = 2; }\n";
    assert_eq!(lib.replace(doc1(), text.to_string()), Ok(Ok(())));
    let first = format!("{:?}", lib.table(&doc1()).unwrap());
    assert_eq!(lib.replace(doc1(), text.to_string()), Ok(Ok(())));
    let second = format!("{:?}", lib.table(&doc1()).unwrap());
    assert_eq!(first, second);
}

#[test]
fn closed_document_answers_nothing() {
    let mut lib = opened();
    lib.close(&doc1());
    assert_eq!(lib.hover(&doc1(), pos(0, 9)), Err(QueryError::UnknownDocument));
    assert!(lib.goto_definition(&doc1(), pos(0, 9)).is_err());
    assert!(lib.table(&doc1()).is_none());
    assert_eq!(handle_request(&lib, "textDocument/hover", &position_payload(0, 9)).unwrap(), None);
    lib.close(&doc1());
    assert!(lib.snapshot(&doc1()).is_none());
}

#[test]
fn close_notification_removes_document() {
    let mut lib = opened();
    let payload = format!("{{\"textDocument\":{{\"uri\":\"{}\"}}}}", DOC1);
    assert_eq!(handle_notification(&mut lib, "textDocument/didClose", &payload), NotificationOutcome::Applied);
    assert_eq!(lib.hover(&doc1(), pos(0, 9)), Err(QueryError::UnknownDocument));
}

#[test]
fn change_of_unopened_document() {
    let mut lib = DocumentLibrary::new();
    assert_eq!(lib.replace(doc1(), "function foo() {}".to_string()), Err(StoreError::NotOpen));
    assert_eq!(
        handle_notification(&mut lib, "textDocument/didChange", &change_payload("function foo() {}")),
        NotificationOutcome::NotOpen
    );
    assert!(lib.snapshot(&doc1()).is_none());
}

#[test]
fn open_notification_indexes() {
    let mut lib = DocumentLibrary::new();
    let payload = format!(
        "{{\"textDocument\":{{\"uri\":\"{}\",\"languageId\":\"js\",\"version\":1,\"text\":\"function foo() {{}}\\n\"}}}}",
        DOC1
    );
    assert_eq!(handle_notification(&mut lib, "textDocument/didOpen", &payload), NotificationOutcome::Applied);
    assert_eq!(lib.hover(&doc1(), pos(0, 9)), Ok(Some("function foo".to_string())));
}

#[test]
fn duplicate_open_overwrites() {
    let mut lib = opened();
    assert_eq!(lib.open(doc1(), "var a;\n".to_string()), Ok(()));
    assert_eq!(lib.snapshot(&doc1()), Some("var a;\n".to_string()));
    assert_eq!(lib.hover(&doc1(), pos(0, 9)), Ok(None));
    assert_eq!(lib.hover(&doc1(), pos(0, 4)), Ok(Some("global variable a".to_string())));
}

#[test]
fn classifier_outcomes() {
    assert!(matches!(SupportedMethods::try_from("textDocument/hover", &position_payload(1, 2)), Ok(SupportedMethods::Hover(q)) if q.uri == DOC1 && q.position == pos(1, 2)));
    assert!(matches!(SupportedMethods::try_from("textDocument/definition", &position_payload(3, 4)), Ok(SupportedMethods::GotoDefinition(q)) if q.position == pos(3, 4)));
    assert!(matches!(SupportedMethods::try_from("textDocument/hover", "{}"), Err(ExtractError::DecodeError)));
    assert!(matches!(SupportedMethods::try_from("textDocument/hover", "not json"), Err(ExtractError::DecodeError)));
    assert!(matches!(SupportedMethods::try_from("textDocument/unknownThing", "{}"), Err(ExtractError::MethodMismatch)));
    assert!(matches!(SupportedNotifications::try_from("textDocument/didSave", "{}"), Err(ExtractError::MethodMismatch)));
    assert!(matches!(SupportedNotifications::try_from("textDocument/didOpen", "[]"), Err(ExtractError::DecodeError)));
    let empty = format!("{{\"textDocument\":{{\"uri\":\"{}\",\"version\":2}},\"contentChanges\":[]}}", DOC1);
    assert!(matches!(SupportedNotifications::try_from("textDocument/didChange", &empty), Err(ExtractError::DecodeError)));
    assert!(matches!(SupportedNotifications::try_from("textDocument/didChange", &change_payload("x")), Ok(SupportedNotifications::DidChangeTextdocument { text, .. }) if text == "x"));
}

#[test]
fn classifier_from_decoded() {
    let r = SupportedMethods::from_decoded("textDocument/hover", Some((DOC1.to_string(), 7, 8)));
    assert!(matches!(r, Ok(SupportedMethods::Hover(q)) if q.position == pos(7, 8)));
    assert!(matches!(SupportedMethods::from_decoded("textDocument/definition", None), Err(ExtractError::DecodeError)));
    assert!(matches!(SupportedMethods::from_decoded("shutdown", None), Err(ExtractError::MethodMismatch)));
}

#[test]
fn invalid_params_error() {
    let lib = opened();
    let e = handle_request(&lib, "textDocument/hover", "{\"position\":3}").unwrap_err();
    assert_eq!(e.code, INVALID_PARAMS);
    let mut lib = opened();
    assert_eq!(handle_notification(&mut lib, "textDocument/didOpen", "{}"), NotificationOutcome::Invalid);
    assert_eq!(handle_notification(&mut lib, "$/progress", "{}"), NotificationOutcome::Ignored);
}

#[test]
fn analyzer_kinds_and_positions() {
    let book = SymbolParser::parse("var g = 1;\nfunction f() {\n  let x = g;\n}\nlet y;\n").unwrap();
    assert_eq!(book.functions.len(), 1);
    assert_eq!(book.functions[0].name, "f");
    assert_eq!(book.functions[0].position, pos(1, 9));
    assert_eq!(book.local_vars.len(), 1);
    assert_eq!(book.local_vars[0].name, "x");
    assert_eq!(book.local_vars[0].position, pos(2, 6));
    assert_eq!(book.global_vars.len(), 2);
    assert_eq!(book.global_vars[0].name, "g");
    assert_eq!(book.global_vars[0].position, pos(0, 4));
    assert_eq!(book.global_vars[1].name, "y");
    assert_eq!(book.global_vars[1].position, pos(4, 4));
}

#[test]
fn analyzer_word_boundaries() {
    let book = SymbolParser::parse("myfunction a() {}\nfunction  b\nfunction 9c\n").unwrap();
    assert_eq!(book.functions.len(), 1);
    assert_eq!(book.functions[0].name, "9c");
}

#[test]
fn analyzer_errors() {
    assert!(matches!(SymbolParser::parse("}{"), Err(AnalysisError::UnbalancedBraces)));
    assert!(matches!(SymbolParser::parse("{"), Err(AnalysisError::UnbalancedBraces)));
    let empty = SymbolParser::parse("").unwrap();
    assert!(empty.functions.is_empty() && empty.local_vars.is_empty() && empty.global_vars.is_empty());
}

#[test]
fn local_variable_hover_and_priority() {
    let mut lib = DocumentLibrary::new();
    assert_eq!(lib.open(doc1(), "{ let v; }".to_string()), Ok(()));
    assert_eq!(lib.hover(&doc1(), pos(0, 6)), Ok(Some("local variable v".to_string())));
}

#[test]
fn lifecycle_clean_shutdown() {
    let (s, a) = step(ServerState::Initializing, Event::Initialized);
    assert_eq!((s, a), (ServerState::Running, Action::Wait));
    let (s, a) = step(s, request_event("textDocument/hover"));
    assert_eq!((s, a), (ServerState::Running, Action::Handle));
    let (s, a) = step(s, request_event("shutdown"));
    assert_eq!((s, a), (ServerState::ShuttingDown, Action::AcknowledgeShutdown));
    let (s2, a) = step(s, request_event("textDocument/hover"));
    assert_eq!((s2, a), (ServerState::ShuttingDown, Action::RejectRequest));
    let (s, a) = step(s2, notification_event("exit"));
    assert_eq!((s, a), (ServerState::Stopped, Action::Exit(0)));
}

#[test]
fn lifecycle_exit_without_shutdown() {
    let (s, a) = step(ServerState::Running, notification_event("exit"));
    assert_eq!((s, a), (ServerState::Stopped, Action::Exit(1)));
    assert_eq!(step(ServerState::Running, Event::ChannelClosed), (ServerState::Stopped, Action::Exit(0)));
    assert_eq!(
        step(ServerState::Running, notification_event("textDocument/didOpen")),
        (ServerState::Running, Action::Handle)
    );
}
