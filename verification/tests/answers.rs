use lsp_commands::actions::{
    menu_callback, menu_event, ActionStep, CodeActionMenu, Menu, MenuUpdate, PromptEvent,
};
use lsp_commands::diagnostics::Diagnostics;
use lsp_commands::editor::{Document, Editor, LspConfig, Severity, StatusMessage};
use lsp_commands::edits::{apply_workspace_edit, EditStep};
use lsp_commands::highlight::{highlighted, select_highlights, Selections};
use lsp_commands::hover::{hover_answered, hover_text, marked_string_to_markdown};
use lsp_commands::labels::{DiagnosticStyles, Style};
use lsp_commands::popup::{passing_popup, Open, Popup, PopupId, ScreenPosition};
use lsp_commands::protocol::{
    CodeAction, CodeActionOrCommand, Command, DocumentHighlight, DocumentSymbol,
    DocumentSymbolResponse, Documentation, HoverContents, Location, LspRange, MarkedString,
    MarkupContent, OffsetEncoding, ParameterInformation, ParameterLabel, PerEncoding, Position,
    SignatureHelp, SignatureInformation, SymbolInformation, SymbolKind, SymbolTag, TextEdit, Uri,
    WorkspaceEdit,
};
use lsp_commands::rename::rename_answered;
use lsp_commands::selection::Range;
use lsp_commands::signature::{
    active_param_range, signature_help_answered, SignatureContents, SignatureUpdate,
};
use lsp_commands::symbols::{
    document_symbols_answered, flat_symbols, nested_to_flat, sym_picker,
    workspace_symbols_answered, SymbolsUpdate,
};
use std::path::PathBuf;

fn uri(text: &str) -> Uri {
    Uri { text: text.to_owned() }
}

fn place(line: u32) -> LspRange {
    LspRange {
        start: Position { line, character: 1 },
        end: Position { line, character: 5 },
    }
}

fn document() -> Document {
    let cursor = || Position { line: 0, character: 0 };
    Document {
        url: Some(uri("file:///w/a.rs")),
        identifier: uri("file:///w/a.rs"),
        language_servers: vec![],
        position: PerEncoding { utf8: cursor(), utf16: cursor(), utf32: cursor() },
        selection: Range::point(0),
        selection_range: PerEncoding { utf8: place(0), utf16: place(0), utf32: place(0) },
        diagnostics: vec![],
    }
}

fn editor() -> Editor {
    Editor {
        doc: document(),
        language_servers: vec![],
        diagnostics: Diagnostics::new(),
        theme: DiagnosticStyles {
            hint: Style::default(),
            info: Style::default(),
            warning: Style::default(),
            error: Style::default(),
        },
        config: LspConfig { auto_signature_help: false, display_signature_help_docs: false },
        status_msg: None,
    }
}

fn nested(name: &str, line: u32, children: Option<Vec<DocumentSymbol>>) -> DocumentSymbol {
    DocumentSymbol {
        name: name.to_owned(),
        kind: SymbolKind { number: 5 },
        tags: Some(vec![SymbolTag { number: 1 }]),
        deprecated: Some(true),
        range: place(line + 100),
        selection_range: place(line),
        children,
    }
}

fn flat(name: &str, line: u32) -> SymbolInformation {
    SymbolInformation {
        name: name.to_owned(),
        kind: SymbolKind { number: 5 },
        tags: Some(vec![SymbolTag { number: 1 }]),
        deprecated: Some(true),
        location: Location { uri: uri("file:///w/a.rs"), range: place(line) },
        container_name: None,
    }
}

fn tree() -> Vec<DocumentSymbol> {
    vec![
        nested(
            "a",
            1,
            Some(vec![
                nested("b", 2, Some(vec![nested("c", 3, None)])),
                nested("d", 4, Some(vec![])),
            ]),
        ),
        nested("e", 5, None),
    ]
}

fn leaves() -> Vec<SymbolInformation> {
    vec![flat("a", 1), flat("b", 2), flat("c", 3), flat("d", 4), flat("e", 5)]
}

#[test]
fn nested_symbols_become_flat() {
    let response = DocumentSymbolResponse::Nested(tree());
    assert_eq!(flat_symbols(response, &uri("file:///w/a.rs")), leaves());
    let response = DocumentSymbolResponse::Flat(vec![flat("x", 9)]);
    assert_eq!(flat_symbols(response, &uri("file:///other")), vec![flat("x", 9)]);
    let mut list = vec![flat("x", 9)];
    nested_to_flat(&mut list, &uri("file:///w/a.rs"), nested("e", 5, None));
    assert_eq!(list, vec![flat("x", 9), flat("e", 5)]);
}

fn encoded(
    symbols: Vec<SymbolInformation>,
    offset_encoding: OffsetEncoding,
) -> Vec<(SymbolInformation, OffsetEncoding)> {
    symbols.into_iter().map(|symbol| (symbol, offset_encoding)).collect()
}

#[test]
fn symbols_of_a_document_are_shown() {
    let response = || Some(DocumentSymbolResponse::Nested(tree()));
    let current = || Some(uri("file:///w/asked.rs"));
    assert_eq!(
        document_symbols_answered(response(), &document(), OffsetEncoding::Utf16, current(), false),
        SymbolsUpdate::Open(sym_picker(encoded(leaves(), OffsetEncoding::Utf16), current()))
    );
    assert_eq!(
        document_symbols_answered(response(), &document(), OffsetEncoding::Utf8, current(), true),
        SymbolsUpdate::AddOptions(encoded(leaves(), OffsetEncoding::Utf8))
    );
    assert_eq!(
        document_symbols_answered(None, &document(), OffsetEncoding::Utf8, current(), false),
        SymbolsUpdate::Nothing
    );
    let picker = sym_picker(vec![], None);
    assert!(!picker.truncate_start);
}

#[test]
fn symbols_of_several_servers_join_in_one_list() {
    let mut shown: Option<Vec<(SymbolInformation, OffsetEncoding)>> = None;
    let answers = [
        (None, OffsetEncoding::Utf8),
        (Some(vec!["a"]), OffsetEncoding::Utf8),
        (None, OffsetEncoding::Utf8),
        (Some(vec![]), OffsetEncoding::Utf16),
        (Some(vec!["b", "c"]), OffsetEncoding::Utf32),
    ];
    for (names, offset_encoding) in answers {
        let response =
            names.map(|names: Vec<&str>| names.into_iter().map(|name| flat(name, 1)).collect());
        let open = shown.is_some();
        match workspace_symbols_answered(response, offset_encoding, None, open) {
            SymbolsUpdate::Nothing => (),
            SymbolsUpdate::AddOptions(options) => shown.as_mut().unwrap().extend(options),
            SymbolsUpdate::Open(picker) => shown = Some(picker.symbols),
        }
    }
    let shown: Vec<(String, OffsetEncoding)> =
        shown.unwrap().into_iter().map(|(symbol, encoding)| (symbol.name, encoding)).collect();
    assert_eq!(
        shown,
        vec![
            ("a".to_owned(), OffsetEncoding::Utf8),
            ("b".to_owned(), OffsetEncoding::Utf32),
            ("c".to_owned(), OffsetEncoding::Utf32),
        ]
    );
}

fn command(title: &str) -> Command {
    Command { title: title.to_owned(), command: "run".to_owned(), arguments: None }
}

fn offer(title: &str) -> CodeActionOrCommand {
    CodeActionOrCommand::Command(command(title))
}

fn menu(titles: &[&str], server: usize, offset_encoding: OffsetEncoding) -> MenuUpdate {
    MenuUpdate::Show(passing_popup(
        PopupId::CodeAction,
        Menu {
            actions: titles.iter().map(|title| (offer(title), offset_encoding)).collect(),
            server,
            preselect_first: true,
        },
    ))
}

#[test]
fn the_first_actions_open_a_menu_and_others_join_it() {
    let mut editor_after = editor();
    let mut request = CodeActionMenu::new();
    let first = request.answered(
        &mut editor_after,
        Some(vec![offer("a"), offer("b")]),
        OffsetEncoding::Utf8,
        1,
        false,
    );
    assert_eq!(first, menu(&["a", "b"], 1, OffsetEncoding::Utf8));
    let second =
        request.answered(&mut editor_after, Some(vec![offer("c")]), OffsetEncoding::Utf16, 2, true);
    assert_eq!(second, MenuUpdate::AddOptions(vec![(offer("c"), OffsetEncoding::Utf16)]));
    let third = request.answered(&mut editor_after, Some(vec![]), OffsetEncoding::Utf16, 3, true);
    assert_eq!(third, MenuUpdate::AddOptions(vec![]));
    assert_eq!(editor_after, editor());
}

#[test]
fn a_menu_that_was_closed_opens_again() {
    let mut editor_after = editor();
    let mut request = CodeActionMenu { open: true };
    let update = request.answered(
        &mut editor_after,
        Some(vec![offer("c")]),
        OffsetEncoding::Utf8,
        2,
        false,
    );
    assert_eq!(update, menu(&["c"], 2, OffsetEncoding::Utf8));
    assert!(request.open);
}

#[test]
fn a_menu_of_an_earlier_request_is_replaced() {
    let mut editor_after = editor();
    let mut request = CodeActionMenu::new();
    let update = request.answered(
        &mut editor_after,
        Some(vec![offer("c")]),
        OffsetEncoding::Utf8,
        2,
        true,
    );
    assert_eq!(update, menu(&["c"], 2, OffsetEncoding::Utf8));
}

#[test]
fn no_actions_are_reported_until_there_is_a_menu() {
    let mut editor_after = editor();
    let mut request = CodeActionMenu::new();
    let update = request.answered(&mut editor_after, None, OffsetEncoding::Utf8, 1, false);
    assert_eq!(update, MenuUpdate::Nothing);
    assert_eq!(editor_after, editor());
    let update = request.answered(&mut editor_after, Some(vec![]), OffsetEncoding::Utf8, 1, false);
    assert_eq!(update, MenuUpdate::Nothing);
    assert_eq!(
        editor_after.status_msg,
        Some(StatusMessage {
            severity: Severity::Info,
            text: "No code actions available".to_owned(),
        })
    );
    assert!(!request.open);
    let mut editor_after = editor();
    let mut request = CodeActionMenu { open: true };
    request.answered(&mut editor_after, Some(vec![]), OffsetEncoding::Utf8, 1, false);
    assert_eq!(editor_after, editor());
}

fn edit() -> WorkspaceEdit {
    let change = TextEdit { range: place(1), new_text: "x".to_owned() };
    WorkspaceEdit {
        changes: Some(vec![(uri("file:///w/a.rs"), vec![change])]),
        document_changes: None,
    }
}

#[test]
fn a_chosen_action_edits_and_then_runs_its_command() {
    let action = |edit: Option<WorkspaceEdit>, command: Option<Command>| {
        CodeActionOrCommand::CodeAction(CodeAction { title: "t".to_owned(), edit, command })
    };
    let run = || ActionStep::Edit(apply_workspace_edit(OffsetEncoding::Utf16, &edit()));
    let execute = || ActionStep::Execute { server: 3, command: command("c") };
    let steps = |choice: CodeActionOrCommand, event: PromptEvent| {
        menu_event(choice, OffsetEncoding::Utf16, 3, event)
    };
    let both = || action(Some(edit()), Some(command("c")));
    assert_eq!(steps(both(), PromptEvent::Validate), vec![run(), execute()]);
    assert_eq!(steps(both(), PromptEvent::Update), vec![]);
    assert_eq!(steps(both(), PromptEvent::Abort), vec![]);
    assert_eq!(steps(action(Some(edit()), None), PromptEvent::Validate), vec![run()]);
    assert_eq!(steps(action(None, Some(command("c"))), PromptEvent::Validate), vec![execute()]);
    assert_eq!(steps(action(None, None), PromptEvent::Validate), vec![]);
    assert_eq!(steps(offer("c"), PromptEvent::Validate), vec![execute()]);
}

#[test]
fn a_menu_without_a_selected_action_does_nothing() {
    let selected = || Some((offer("c"), OffsetEncoding::Utf16));
    for event in [PromptEvent::Update, PromptEvent::Abort] {
        assert_eq!(menu_callback(None, 3, event), vec![]);
        assert_eq!(menu_callback(selected(), 3, event), vec![]);
    }
    assert_eq!(
        menu_callback(selected(), 3, PromptEvent::Validate),
        vec![ActionStep::Execute { server: 3, command: command("c") }]
    );
    let action = CodeAction { title: "t".to_owned(), edit: Some(edit()), command: None };
    let selected = Some((CodeActionOrCommand::CodeAction(action), OffsetEncoding::Utf8));
    assert_eq!(
        menu_callback(selected, 3, PromptEvent::Validate),
        vec![ActionStep::Edit(apply_workspace_edit(OffsetEncoding::Utf8, &edit()))]
    );
}

#[test]
fn a_rename_is_carried_out_or_reported() {
    let mut editor_after = editor();
    let mut run = rename_answered(&mut editor_after, Ok(edit()), OffsetEncoding::Utf8).unwrap();
    assert_eq!(run.advance(1), EditStep::Open(PathBuf::from("/w/a.rs")));
    assert_eq!(editor_after, editor());
    let answer = Err("no such symbol".to_owned());
    assert_eq!(rename_answered(&mut editor_after, answer, OffsetEncoding::Utf8), None);
    assert_eq!(
        editor_after.status_msg,
        Some(StatusMessage { severity: Severity::Error, text: "no such symbol".to_owned() })
    );
}

fn fenced(language: &str, value: &str) -> MarkedString {
    MarkedString::LanguageString { language: language.to_owned(), value: value.to_owned() }
}

#[test]
fn hover_text_is_markdown() {
    assert_eq!(marked_string_to_markdown(MarkedString::String("*a*".to_owned())), "*a*");
    assert_eq!(marked_string_to_markdown(fenced("markdown", "*a*")), "*a*");
    assert_eq!(marked_string_to_markdown(fenced("rust", "fn f()")), "```rust\nfn f()\n```");
    assert_eq!(marked_string_to_markdown(fenced("", "")), "```\n\n```");
    assert_eq!(marked_string_to_markdown(fenced("Markdown", "a")), "```Markdown\na\n```");
}

#[test]
fn pieces_of_hover_text_are_joined() {
    let pieces = vec![fenced("c", "x"), MarkedString::String(String::new()), fenced("markdown", "y")];
    assert_eq!(hover_text(HoverContents::Array(pieces)), "```c\nx\n```\n\n\n\ny");
    assert_eq!(hover_text(HoverContents::Array(vec![])), "");
    assert_eq!(
        hover_text(HoverContents::Array(vec![fenced("c", "x")])),
        hover_text(HoverContents::Scalar(fenced("c", "x")))
    );
    let markup = MarkupContent { value: "**m**".to_owned() };
    assert_eq!(hover_text(HoverContents::Markup(markup)), "**m**");
}

#[test]
fn hover_text_is_shown_in_a_popup() {
    let contents = HoverContents::Markup(MarkupContent { value: "m".to_owned() });
    assert_eq!(
        hover_answered(Some(contents)),
        Some(Popup {
            id: PopupId::Hover,
            contents: "m".to_owned(),
            position: None,
            position_bias: None,
            ignore_escape_key: false,
            auto_close: true,
        })
    );
    assert_eq!(hover_answered(None), None);
}

#[test]
fn empty_hover_text_is_skipped() {
    let nothing = || MarkedString::String(String::new());
    let empty = [
        HoverContents::Markup(MarkupContent { value: String::new() }),
        HoverContents::Scalar(nothing()),
        HoverContents::Scalar(fenced("markdown", "")),
        HoverContents::Array(vec![]),
        HoverContents::Array(vec![nothing()]),
    ];
    for contents in empty {
        assert_eq!(hover_answered(Some(contents)), None);
    }
    let shown = [
        HoverContents::Scalar(fenced("", "")),
        HoverContents::Scalar(MarkedString::String(" ".to_owned())),
        HoverContents::Array(vec![nothing(), nothing()]),
    ];
    for contents in shown {
        assert!(hover_answered(Some(contents)).is_some());
    }
}

#[test]
fn uses_are_looked_up() {
    assert_eq!(highlighted(None), None);
    assert_eq!(highlighted(Some(vec![])), None);
    let highlights =
        vec![DocumentHighlight { range: place(2) }, DocumentHighlight { range: place(1) }];
    assert_eq!(highlighted(Some(highlights)), Some(vec![place(2), place(1)]));
}

#[test]
fn the_primary_cursor_stays_in_its_use() {
    let range = |anchor: usize, head: usize| Range { anchor, head };
    let resolved = vec![
        Some(range(0, 3)),
        None,
        Some(range(10, 13)),
        Some(range(20, 23)),
        Some(range(11, 15)),
        Some(range(30, 33)),
    ];
    let ranges =
        || vec![range(0, 3), range(10, 13), range(20, 23), range(11, 15), range(30, 33)];
    let primary = |cursor: usize| select_highlights(&resolved, cursor).primary_index;
    assert_eq!(
        select_highlights(&resolved, 22),
        Selections { ranges: ranges(), primary_index: 2 }
    );
    assert_eq!(primary(0), 0);
    assert_eq!(primary(10), 1);
    assert_eq!(primary(12), 3);
    assert_eq!(primary(33), 0);
    assert_eq!(
        select_highlights(&vec![None, None], 5),
        Selections { ranges: vec![], primary_index: 0 }
    );
}

fn parameter(label: ParameterLabel) -> ParameterInformation {
    ParameterInformation { label }
}

fn simple(text: &str) -> ParameterInformation {
    parameter(ParameterLabel::Simple(text.to_owned()))
}

fn signature(label: &str, parameters: Option<Vec<ParameterInformation>>) -> SignatureInformation {
    SignatureInformation {
        label: label.to_owned(),
        documentation: None,
        parameters,
        active_parameter: None,
    }
}

#[test]
fn the_active_parameter_is_found_by_its_text() {
    let label = "fn f(ä: A, b: B)";
    let mut information =
        signature(label, Some(vec![simple("ä: A"), simple("b: B"), simple("nowhere")]));
    assert_eq!(active_param_range(&information, None), Some((5, 10)));
    assert_eq!(active_param_range(&information, Some(1)), Some((12, 16)));
    assert_eq!(&label[12..16], "b: B");
    assert_eq!(active_param_range(&information, Some(2)), None);
    assert_eq!(active_param_range(&information, Some(3)), None);
    information.active_parameter = Some(0);
    assert_eq!(active_param_range(&information, Some(1)), Some((5, 10)));
    information.parameters = None;
    assert_eq!(active_param_range(&information, None), None);
}

#[test]
fn the_active_parameter_is_found_by_its_offsets() {
    let label = "f(日本: A, b)";
    let offsets = |start: u32, end: u32| parameter(ParameterLabel::LabelOffsets { start, end });
    let information = signature(
        label,
        Some(vec![offsets(2, 7), offsets(9, 10), offsets(4, 2), offsets(9, 1000)]),
    );
    assert_eq!(active_param_range(&information, Some(0)), Some((2, 11)));
    assert_eq!(&label[2..11], "日本: A");
    assert_eq!(active_param_range(&information, Some(1)), Some((13, 14)));
    assert_eq!(active_param_range(&information, Some(2)), Some((8, 2)));
    assert_eq!(active_param_range(&information, Some(3)), Some((13, label.len())));
}

#[test]
fn offsets_count_utf16_units() {
    let label = "\u{1F600}f(a)";
    let offsets = |start: u32, end: u32| parameter(ParameterLabel::LabelOffsets { start, end });
    let information =
        signature(label, Some(vec![offsets(4, 5), offsets(0, 2), offsets(1, 3), offsets(2, 99)]));
    assert_eq!(active_param_range(&information, Some(0)), Some((6, 7)));
    assert_eq!(&label[6..7], "a");
    assert_eq!(active_param_range(&information, Some(1)), Some((0, 4)));
    assert_eq!(active_param_range(&information, Some(2)), Some((0, 5)));
    assert_eq!(active_param_range(&information, Some(3)), Some((4, 8)));
    let response = SignatureHelp {
        signatures: vec![information],
        active_signature: None,
        active_parameter: None,
    };
    let update =
        signature_help_answered(&config(false, false), Some(response), None, false, true, None);
    match update {
        SignatureUpdate::Show(popup) => {
            assert_eq!(popup.contents.active_param_range, Some((6, 7)))
        }
        other => panic!("{:?}", other),
    }
}

#[test]
fn offsets_in_a_long_label() {
    let label = "日".repeat(70) + &"x".repeat(70) + &"ö".repeat(70);
    let ends: Vec<usize> = label.char_indices().map(|(at, _)| at).collect();
    for (start, end) in [(0, 69), (70, 71), (100, 150), (141, 209)] {
        let offsets = parameter(ParameterLabel::LabelOffsets { start, end });
        let information = signature(&label, Some(vec![offsets]));
        let expected = (ends[start as usize], ends[end as usize]);
        assert_eq!(active_param_range(&information, None), Some(expected));
    }
}

fn config(auto_signature_help: bool, display_signature_help_docs: bool) -> LspConfig {
    LspConfig { auto_signature_help, display_signature_help_docs }
}

fn help(active_signature: Option<u32>) -> Option<SignatureHelp> {
    let mut second = signature("g(x)", Some(vec![simple("x")]));
    second.documentation = Some(Documentation::String("second".to_owned()));
    let mut first = signature("f(a, b)", Some(vec![simple("a"), simple("b")]));
    first.documentation =
        Some(Documentation::MarkupContent(MarkupContent { value: "first".to_owned() }));
    Some(SignatureHelp {
        signatures: vec![first, second],
        active_signature,
        active_parameter: Some(1),
    })
}

#[test]
fn a_signature_is_shown() {
    let position = Some(ScreenPosition { row: 3, col: 4 });
    let language = || Some("rust".to_owned());
    let update =
        signature_help_answered(&config(true, true), help(None), language(), false, false, position);
    assert_eq!(
        update,
        SignatureUpdate::Show(Popup {
            id: PopupId::SignatureHelp,
            contents: SignatureContents {
                signature: "f(a, b)".to_owned(),
                language: "rust".to_owned(),
                signature_doc: Some("first".to_owned()),
                active_param_range: Some((5, 6)),
            },
            position,
            position_bias: Some(Open::Above),
            ignore_escape_key: true,
            auto_close: false,
        })
    );
    let update =
        signature_help_answered(&config(false, false), help(Some(1)), None, true, false, None);
    match update {
        SignatureUpdate::Show(popup) => {
            assert_eq!(
                popup.contents,
                SignatureContents {
                    signature: "g(x)".to_owned(),
                    language: String::new(),
                    signature_doc: None,
                    active_param_range: None,
                }
            );
            assert_eq!(popup.position, None);
        }
        other => panic!("{:?}", other),
    }
    let update =
        signature_help_answered(&config(false, true), help(Some(1)), None, false, true, None);
    match update {
        SignatureUpdate::Show(popup) => {
            assert_eq!(popup.contents.signature_doc, Some("second".to_owned()))
        }
        other => panic!("{:?}", other),
    }
}

#[test]
fn a_signature_that_is_not_there_changes_nothing() {
    let update =
        signature_help_answered(&config(true, true), help(Some(2)), None, true, true, None);
    assert_eq!(update, SignatureUpdate::Nothing);
}

#[test]
fn the_popup_goes_when_there_is_no_signature() {
    let none = || SignatureHelp {
        signatures: vec![],
        active_signature: None,
        active_parameter: None,
    };
    for response in [None, Some(none())] {
        let expected = [
            (config(true, true), false, false, SignatureUpdate::Remove),
            (config(false, true), true, false, SignatureUpdate::Remove),
            (config(false, true), false, true, SignatureUpdate::Remove),
            (config(false, true), false, false, SignatureUpdate::Nothing),
        ];
        for (config, visible, manual, update) in expected {
            let response = response.as_ref().map(|_| none());
            assert_eq!(
                signature_help_answered(&config, response, None, visible, manual, None),
                update
            );
        }
    }
}

#[test]
fn help_that_nobody_wants_is_not_shown() {
    let update =
        signature_help_answered(&config(false, true), help(None), None, false, false, None);
    assert_eq!(update, SignatureUpdate::Nothing);
}
