use lsp_commands::diagnostics::{DiagnosticPicker, Diagnostics};
use lsp_commands::editor::{
    Document, Editor, LspConfig, Severity, StatusMessage,
};
use lsp_commands::goto::{
    definition_answered, goto_impl, references_answered, to_locations, GotoOutcome,
};
use lsp_commands::jump::{
    begin_location_jump, jump_to_location, Action, Complaint, Effect, Goal, Jump, OpenError,
    Resolved,
};
use lsp_commands::labels::{DiagnosticStyles, DiagnosticsFormat, PickerDiagnostic, Style};
use lsp_commands::protocol::{
    Diagnostic, GotoDefinitionResponse, Location, LocationLink, LspRange, OffsetEncoding,
    PerEncoding, Position, SymbolInformation, SymbolKind, Uri,
};
use lsp_commands::selection::Range;
use lsp_commands::symbols::{sym_picker, SymbolPicker};
use std::path::PathBuf;

fn uri(text: &str) -> Uri {
    Uri { text: text.to_owned() }
}

fn place(line: u32) -> LspRange {
    LspRange {
        start: Position { line, character: 1 },
        end: Position { line, character: 5 },
    }
}

fn location(text: &str, line: u32) -> Location {
    Location { uri: uri(text), range: place(line) }
}

fn editor() -> Editor {
    let cursor = || Position { line: 0, character: 0 };
    Editor {
        doc: Document {
            url: None,
            identifier: uri("file:///w/a.rs"),
            language_servers: vec![],
            position: PerEncoding { utf8: cursor(), utf16: cursor(), utf32: cursor() },
            selection: Range::point(0),
            selection_range: PerEncoding { utf8: place(0), utf16: place(0), utf32: place(0) },
            diagnostics: vec![],
        },
        language_servers: vec![],
        diagnostics: Diagnostics::new(),
        theme: DiagnosticStyles {
            hint: Style::default(),
            info: Style::default(),
            warning: Style::default(),
            error: Style::default(),
        },
        config: LspConfig { auto_signature_help: false, display_signature_help_docs: false },
        status_msg: None,
    }
}

fn refused() -> OpenError {
    OpenError { display: "not found".to_owned(), debug: "NotFound { code: 2 }".to_owned() }
}

fn complains_of(jump: Jump) -> String {
    let (jump, mut effects) = jump.opened(Err(refused()));
    assert_eq!(jump, Jump::Done);
    assert_eq!(effects.len(), 1);
    match effects.remove(0) {
        Effect::SetError(message) => message,
        other => panic!("{:?}", other),
    }
}

#[test]
fn jump_to_a_location() {
    let (jump, effects) = jump_to_location(
        &location("file:///w/b%20c.rs", 7),
        OffsetEncoding::Utf16,
        Action::VerticalSplit,
    );
    assert_eq!(
        effects,
        vec![
            Effect::PushJump,
            Effect::Open { path: PathBuf::from("/w/b c.rs"), action: Action::VerticalSplit },
        ]
    );
    let (jump, effects) = jump.opened(Ok(()));
    let goal = Goal::Point(Position { line: 7, character: 1 });
    assert_eq!(
        effects,
        vec![Effect::Resolve { goal, offset_encoding: OffsetEncoding::Utf16 }]
    );
    let (jump, effects) = jump.resolved(Some(Resolved::Point(42)));
    assert_eq!(
        effects,
        vec![Effect::Select(Range { anchor: 42, head: 42 }), Effect::AlignCenter]
    );
    assert_eq!(jump, Jump::Done);
}

#[test]
fn jump_to_a_place_that_is_not_in_the_text() {
    let (jump, _) =
        jump_to_location(&location("file:///w/b.rs", 7), OffsetEncoding::Utf8, Action::Load);
    let (jump, _) = jump.opened(Ok(()));
    assert_eq!(jump.resolved(None), (Jump::Done, vec![]));
}

#[test]
fn jump_to_an_address_that_is_no_path() {
    let (jump, effects) =
        jump_to_location(&location("untitled:one", 7), OffsetEncoding::Utf8, Action::Replace);
    assert_eq!(jump, Jump::Done);
    assert_eq!(
        effects,
        vec![
            Effect::PushJump,
            Effect::SetError("unable to convert URI to filepath: untitled:one".to_owned()),
        ]
    );
}

#[test]
fn jump_to_a_file_that_does_not_open() {
    let address = "file:///w/b.rs";
    let (jump, _) =
        jump_to_location(&location(address, 7), OffsetEncoding::Utf8, Action::Replace);
    let printed = format!("{:?}", url::Url::parse(address).unwrap());
    assert_ne!(printed, address);
    assert_eq!(
        complains_of(jump),
        format!("failed to open path: {}: NotFound {{ code: 2 }}", printed)
    );
}

#[test]
fn a_jump_begins_with_what_its_address_gave() {
    let target = location("file:///w/b.rs", 2);
    let found = Some((PathBuf::from("/elsewhere"), "printed".to_owned()));
    let (jump, effects) =
        begin_location_jump(&target, OffsetEncoding::Utf32, Action::HorizontalSplit, found);
    assert_eq!(
        jump,
        Jump::Opening {
            complaint: Complaint::Path { printed: "printed".to_owned() },
            goal: Goal::Point(Position { line: 2, character: 1 }),
            offset_encoding: OffsetEncoding::Utf32,
        }
    );
    assert_eq!(
        effects[1],
        Effect::Open { path: PathBuf::from("/elsewhere"), action: Action::HorizontalSplit }
    );
    assert_eq!(complains_of(jump), "failed to open path: printed: NotFound { code: 2 }");
    let (jump, effects) =
        begin_location_jump(&target, OffsetEncoding::Utf32, Action::HorizontalSplit, None);
    assert_eq!(jump, Jump::Done);
    assert_eq!(effects.len(), 2);
}

fn symbol(text: &str) -> SymbolInformation {
    SymbolInformation {
        name: "s".to_owned(),
        kind: SymbolKind { number: 12 },
        tags: None,
        deprecated: None,
        location: location(text, 9),
        container_name: None,
    }
}

fn symbols() -> SymbolPicker {
    sym_picker(vec![], Some(uri("file:///w/a.rs")))
}

#[test]
fn choose_a_symbol_of_the_document() {
    let picker = symbols();
    let (jump, effects) =
        picker.choose_symbol(&symbol("file:///w/a.rs"), OffsetEncoding::Utf16, Action::Replace);
    assert_eq!(
        effects,
        vec![
            Effect::PushJump,
            Effect::Resolve {
                goal: Goal::Stretch(place(9)),
                offset_encoding: OffsetEncoding::Utf16,
            },
        ]
    );
    let (jump, effects) = jump.resolved(Some(Resolved::Stretch(Range { anchor: 10, head: 14 })));
    assert_eq!(
        effects,
        vec![Effect::Select(Range { anchor: 14, head: 10 }), Effect::AlignCenter]
    );
    assert_eq!(jump, Jump::Done);
}

#[test]
fn choose_a_symbol_of_another_document() {
    let picker = symbols();
    let (jump, effects) =
        picker.choose_symbol(&symbol("file:///w/b.rs"), OffsetEncoding::Utf8, Action::Replace);
    assert_eq!(
        effects,
        vec![Effect::Open { path: PathBuf::from("/w/b.rs"), action: Action::Replace }]
    );
    let (jump, effects) = jump.opened(Ok(()));
    assert_eq!(jump, Jump::Resolving);
    assert_eq!(
        effects,
        vec![Effect::Resolve {
            goal: Goal::Stretch(place(9)),
            offset_encoding: OffsetEncoding::Utf8,
        }]
    );
}

#[test]
fn choose_a_symbol_that_cannot_be_reached() {
    let picker = symbols();
    let (jump, effects) =
        picker.choose_symbol(&symbol("untitled:one"), OffsetEncoding::Utf8, Action::Replace);
    assert_eq!(jump, Jump::Done);
    assert_eq!(
        effects,
        vec![Effect::SetError("unable to convert URI to filepath: untitled:one".to_owned())]
    );
    let (jump, _) =
        picker.choose_symbol(&symbol("file:///w/b.rs"), OffsetEncoding::Utf8, Action::Replace);
    assert_eq!(complains_of(jump), "failed to open document: file:///w/b.rs: not found");
}

#[test]
fn the_path_of_a_symbol_counts_only_elsewhere() {
    let picker = symbols();
    let path = || Some(PathBuf::from("/p"));
    let here = symbol("file:///w/a.rs");
    assert_eq!(
        picker.begin_choice(&here, OffsetEncoding::Utf8, Action::Load, path()),
        picker.begin_choice(&here, OffsetEncoding::Utf8, Action::Load, None)
    );
    let there = symbol("file:///w/b.rs");
    let (_, effects) = picker.begin_choice(&there, OffsetEncoding::Utf8, Action::Load, path());
    assert_eq!(effects, vec![Effect::Open { path: PathBuf::from("/p"), action: Action::Load }]);
}

fn diagnostics(current_path: Option<Uri>) -> DiagnosticPicker {
    DiagnosticPicker {
        items: vec![],
        styles: DiagnosticStyles {
            hint: Style::default(),
            info: Style::default(),
            warning: Style::default(),
            error: Style::default(),
        },
        format: DiagnosticsFormat::ShowSourcePath,
        current_path,
        truncate_start: false,
    }
}

fn item(text: &str) -> PickerDiagnostic {
    PickerDiagnostic {
        url: uri(text),
        diag: Diagnostic {
            range: place(3),
            severity: None,
            code: None,
            message: "m".to_owned(),
        },
        offset_encoding: OffsetEncoding::Utf32,
    }
}

#[test]
fn choose_a_diagnostic() {
    let picker = diagnostics(Some(uri("file:///w/a.rs")));
    let resolve = || Effect::Resolve {
        goal: Goal::Stretch(place(3)),
        offset_encoding: OffsetEncoding::Utf32,
    };
    let (jump, effects) =
        picker.choose_diagnostic(&item("file:///w/a.rs"), Action::Replace).unwrap();
    assert_eq!(jump, Jump::Resolving);
    assert_eq!(effects, vec![Effect::PushJump, resolve()]);
    let (jump, effects) =
        picker.choose_diagnostic(&item("file:///w/b.rs"), Action::Replace).unwrap();
    assert_eq!(
        effects,
        vec![Effect::Open { path: PathBuf::from("/w/b.rs"), action: Action::Replace }]
    );
    assert!(matches!(&jump, Jump::Opening { complaint: Complaint::Fatal, .. }));
    let (jump, effects) = jump.opened(Ok(()));
    assert_eq!(jump, Jump::Resolving);
    assert_eq!(effects, vec![resolve()]);
    assert_eq!(picker.choose_diagnostic(&item("untitled:one"), Action::Replace), None);
}

#[test]
fn a_diagnostic_of_the_document_needs_no_path() {
    let picker = diagnostics(Some(uri("untitled:one")));
    let (jump, effects) =
        picker.choose_diagnostic(&item("untitled:one"), Action::Replace).unwrap();
    assert_eq!(jump, Jump::Resolving);
    assert_eq!(effects[0], Effect::PushJump);
    assert_eq!(picker.begin_choice(&item("untitled:two"), Action::Load, None), None);
    assert_eq!(diagnostics(None).begin_choice(&item("untitled:one"), Action::Load, None), None);
}

#[test]
fn locations_of_an_answer() {
    let link = |text: &str, line: u32| LocationLink {
        origin_selection_range: Some(place(100)),
        target_uri: uri(text),
        target_range: place(line),
        target_selection_range: place(line + 1),
    };
    let one = location("file:///w/a.rs", 1);
    assert_eq!(
        to_locations(Some(GotoDefinitionResponse::Scalar(one))),
        vec![location("file:///w/a.rs", 1)]
    );
    let several = vec![location("file:///w/b.rs", 1), location("file:///w/a.rs", 2)];
    assert_eq!(
        to_locations(Some(GotoDefinitionResponse::Array(several))),
        vec![location("file:///w/b.rs", 1), location("file:///w/a.rs", 2)]
    );
    let links = vec![link("file:///w/c.rs", 5), link("file:///w/a.rs", 6)];
    assert_eq!(
        to_locations(Some(GotoDefinitionResponse::Link(links))),
        vec![location("file:///w/c.rs", 5), location("file:///w/a.rs", 6)]
    );
    assert_eq!(to_locations(None), vec![]);
}

#[test]
fn no_location_is_an_error() {
    let error = Some(StatusMessage {
        severity: Severity::Error,
        text: "No definition found.".to_owned(),
    });
    let mut one = editor();
    assert_eq!(definition_answered(&mut one, None, OffsetEncoding::Utf8), GotoOutcome::Nothing);
    assert_eq!(one.status_msg, error);
    let mut two = editor();
    assert_eq!(references_answered(&mut two, None, OffsetEncoding::Utf8), GotoOutcome::Nothing);
    assert_eq!(two.status_msg, error);
    let mut three = editor();
    assert_eq!(goto_impl(&mut three, vec![], OffsetEncoding::Utf8), GotoOutcome::Nothing);
    assert_eq!(three.status_msg, error);
}

#[test]
fn one_location_is_jumped_to() {
    let mut editor_after = editor();
    let response = Some(GotoDefinitionResponse::Scalar(location("file:///w/b.rs", 3)));
    let outcome = definition_answered(&mut editor_after, response, OffsetEncoding::Utf16);
    let (jump, effects) =
        jump_to_location(&location("file:///w/b.rs", 3), OffsetEncoding::Utf16, Action::Replace);
    assert_eq!(outcome, GotoOutcome::Jump(jump, effects));
    assert_eq!(editor_after, editor());
}

#[test]
fn of_several_locations_one_is_chosen() {
    let mut editor_after = editor();
    let locations = || vec![location("file:///w/b.rs", 3), location("file:///w/c.rs", 4)];
    assert_eq!(
        references_answered(&mut editor_after, Some(locations()), OffsetEncoding::Utf16),
        GotoOutcome::Choose { locations: locations(), offset_encoding: OffsetEncoding::Utf16 }
    );
    assert_eq!(editor_after, editor());
}
