use lsp_commands::actions::{code_action, execute_lsp_command, overlapping_diagnostics, PromptEvent};
use lsp_commands::diagnostics::{
    diag_picker, diagnostics_picker, workspace_diagnostics_picker, DiagnosticPicker, Diagnostics,
    DocumentDiagnostics,
};
use lsp_commands::editor::{
    Callback, Context, DiagnosticSpan, Document, Editor, Features, GotoKind, LanguageServer,
    LanguageServerFeature, Layer, LspConfig, PositionRequest, Prompt, Severity, StatusMessage,
};
use lsp_commands::goto::{
    goto_definition, goto_implementation, goto_reference, goto_type_definition,
};
use lsp_commands::highlight::select_references_to_symbol_under_cursor;
use lsp_commands::hover::hover;
use lsp_commands::labels::{DiagnosticStyles, DiagnosticsFormat, Style};
use lsp_commands::protocol::{
    Command, Diagnostic, LspRange, OffsetEncoding, PerEncoding, Position, Uri,
};
use lsp_commands::rename::{rename_event, rename_symbol};
use lsp_commands::selection::Range;
use lsp_commands::signature::{
    signature_help, signature_help_impl, signature_help_impl_with_language_server_id,
    SignatureHelpInvoked,
};
use lsp_commands::symbols::{symbol_picker, workspace_symbol_picker};

const NO_SERVER_WITH_FEATURE: &str =
    "Language server not active for current buffer or no language server supports this feature";
const NO_SERVER: &str = "Language server not active for current buffer";

fn uri(text: &str) -> Uri {
    Uri { text: text.to_owned() }
}

fn position(line: u32, character: u32) -> Position {
    Position { line, character }
}

fn stretch(character: u32) -> LspRange {
    LspRange { start: position(1, character), end: position(2, character) }
}

fn no_features() -> Features {
    Features {
        goto_definition: false,
        goto_type_definition: false,
        goto_implementation: false,
        goto_reference: false,
        signature_help: false,
        hover: false,
        document_highlight: false,
        code_action: false,
        document_symbols: false,
        workspace_symbols: false,
        rename_symbol: false,
    }
}

fn all_features() -> Features {
    Features {
        goto_definition: true,
        goto_type_definition: true,
        goto_implementation: true,
        goto_reference: true,
        signature_help: true,
        hover: true,
        document_highlight: true,
        code_action: true,
        document_symbols: true,
        workspace_symbols: true,
        rename_symbol: true,
    }
}

fn server(id: usize, offset_encoding: OffsetEncoding, features: Features) -> LanguageServer {
    LanguageServer { id, offset_encoding, features, answers_signature_help: true }
}

fn theme() -> DiagnosticStyles {
    DiagnosticStyles {
        hint: Style { add_modifier: 1, ..Style::default() },
        info: Style { add_modifier: 2, ..Style::default() },
        warning: Style { add_modifier: 3, ..Style::default() },
        error: Style { add_modifier: 4, ..Style::default() },
    }
}

fn context(servers: Vec<LanguageServer>) -> Context {
    Context {
        editor: Editor {
            doc: Document {
                url: Some(uri("file:///w/a.rs")),
                identifier: uri("file:///w/a.rs"),
                language_servers: servers.clone(),
                position: PerEncoding {
                    utf8: position(3, 8),
                    utf16: position(3, 16),
                    utf32: position(3, 32),
                },
                selection: Range { anchor: 4, head: 9 },
                selection_range: PerEncoding {
                    utf8: stretch(8),
                    utf16: stretch(16),
                    utf32: stretch(32),
                },
                diagnostics: vec![],
            },
            language_servers: servers,
            diagnostics: Diagnostics::new(),
            theme: theme(),
            config: LspConfig { auto_signature_help: true, display_signature_help_docs: true },
            status_msg: None,
        },
        callbacks: vec![],
        layers: vec![],
    }
}

fn told(cx: &Context) -> Option<(Severity, &str)> {
    cx.editor.status_msg.as_ref().map(|message| (message.severity, message.text.as_str()))
}

fn request(server: usize, offset_encoding: OffsetEncoding, character: u32) -> PositionRequest {
    PositionRequest {
        server,
        offset_encoding,
        document: uri("file:///w/a.rs"),
        position: position(3, character),
    }
}

#[test]
fn servers_by_feature() {
    let only_hover = Features { hover: true, ..no_features() };
    let cx = context(vec![
        server(1, OffsetEncoding::Utf8, no_features()),
        server(2, OffsetEncoding::Utf16, only_hover),
        server(3, OffsetEncoding::Utf32, all_features()),
    ]);
    let with = |feature: LanguageServerFeature| -> Vec<usize> {
        cx.editor.doc.language_servers_with_feature(feature).iter().map(|s| s.id).collect()
    };
    assert_eq!(with(LanguageServerFeature::Hover), vec![2, 3]);
    assert_eq!(with(LanguageServerFeature::RenameSymbol), vec![3]);
    let first = cx.editor.doc.first_language_server(LanguageServerFeature::Hover);
    assert_eq!(first.map(|s| s.id), Some(2));
    assert_eq!(cx.editor.language_server_by_id(3).map(|s| s.id), Some(3));
    assert_eq!(cx.editor.language_server_by_id(4), None);
}

#[test]
fn each_feature_is_told_apart() {
    let features = [
        (LanguageServerFeature::GotoDefinition, Features { goto_definition: true, ..no_features() }),
        (
            LanguageServerFeature::GotoTypeDefinition,
            Features { goto_type_definition: true, ..no_features() },
        ),
        (
            LanguageServerFeature::GotoImplementation,
            Features { goto_implementation: true, ..no_features() },
        ),
        (LanguageServerFeature::GotoReference, Features { goto_reference: true, ..no_features() }),
        (LanguageServerFeature::SignatureHelp, Features { signature_help: true, ..no_features() }),
        (LanguageServerFeature::Hover, Features { hover: true, ..no_features() }),
        (
            LanguageServerFeature::DocumentHighlight,
            Features { document_highlight: true, ..no_features() },
        ),
        (LanguageServerFeature::CodeAction, Features { code_action: true, ..no_features() }),
        (
            LanguageServerFeature::DocumentSymbols,
            Features { document_symbols: true, ..no_features() },
        ),
        (
            LanguageServerFeature::WorkspaceSymbols,
            Features { workspace_symbols: true, ..no_features() },
        ),
        (LanguageServerFeature::RenameSymbol, Features { rename_symbol: true, ..no_features() }),
    ];
    for (i, (feature, _)) in features.iter().enumerate() {
        for (k, (_, given)) in features.iter().enumerate() {
            let server = server(1, OffsetEncoding::Utf8, *given);
            assert_eq!(server.supports(*feature), i == k);
        }
    }
}

#[test]
fn definitions_are_asked_for() {
    let commands: [(fn(&mut Context), GotoKind, Features); 4] = [
        (
            goto_definition,
            GotoKind::Definition,
            Features { goto_definition: true, ..no_features() },
        ),
        (
            goto_type_definition,
            GotoKind::TypeDefinition,
            Features { goto_type_definition: true, ..no_features() },
        ),
        (
            goto_implementation,
            GotoKind::Implementation,
            Features { goto_implementation: true, ..no_features() },
        ),
        (goto_reference, GotoKind::Reference, Features { goto_reference: true, ..no_features() }),
    ];
    for (command, kind, features) in commands {
        let mut cx = context(vec![
            server(1, OffsetEncoding::Utf8, no_features()),
            server(2, OffsetEncoding::Utf16, features),
            server(3, OffsetEncoding::Utf32, all_features()),
        ]);
        command(&mut cx);
        let request = request(2, OffsetEncoding::Utf16, 16);
        assert_eq!(cx.callbacks, vec![Callback::Goto { kind, request }]);
        assert_eq!(told(&cx), None);
        assert_eq!(cx.layers, vec![]);
    }
}

#[test]
fn commands_tell_that_no_server_has_the_feature() {
    let commands: [fn(&mut Context); 6] = [
        goto_definition,
        goto_type_definition,
        goto_implementation,
        goto_reference,
        hover,
        select_references_to_symbol_under_cursor,
    ];
    for command in commands {
        for servers in [vec![], vec![server(1, OffsetEncoding::Utf8, no_features())]] {
            let mut cx = context(servers);
            command(&mut cx);
            assert_eq!(told(&cx), Some((Severity::Info, NO_SERVER_WITH_FEATURE)));
            assert_eq!(cx.callbacks, vec![]);
        }
    }
}

#[test]
fn hover_and_uses_are_asked_for() {
    let mut cx = context(vec![server(5, OffsetEncoding::Utf32, all_features())]);
    hover(&mut cx);
    select_references_to_symbol_under_cursor(&mut cx);
    assert_eq!(
        cx.callbacks,
        vec![
            Callback::Hover(request(5, OffsetEncoding::Utf32, 32)),
            Callback::DocumentHighlight(request(5, OffsetEncoding::Utf32, 32)),
        ]
    );
    assert_eq!(told(&cx), None);
}

#[test]
fn symbols_are_asked_of_every_server() {
    let mut cx = context(vec![
        server(1, OffsetEncoding::Utf8, all_features()),
        server(2, OffsetEncoding::Utf16, no_features()),
        server(3, OffsetEncoding::Utf32, all_features()),
    ]);
    symbol_picker(&mut cx);
    let asked = |server: usize, offset_encoding: OffsetEncoding| Callback::DocumentSymbols {
        server,
        offset_encoding,
        document: uri("file:///w/a.rs"),
        current_url: Some(uri("file:///w/a.rs")),
    };
    assert_eq!(
        cx.callbacks,
        vec![asked(1, OffsetEncoding::Utf8), asked(3, OffsetEncoding::Utf32)]
    );
    cx.callbacks.clear();
    workspace_symbol_picker(&mut cx);
    let asked = |server: usize, offset_encoding: OffsetEncoding| Callback::WorkspaceSymbols {
        server,
        offset_encoding,
        query: String::new(),
        current_url: Some(uri("file:///w/a.rs")),
    };
    assert_eq!(
        cx.callbacks,
        vec![asked(1, OffsetEncoding::Utf8), asked(3, OffsetEncoding::Utf32)]
    );
}

#[test]
fn no_server_for_symbols_or_actions_says_nothing() {
    let commands: [fn(&mut Context); 3] = [symbol_picker, workspace_symbol_picker, code_action];
    for command in commands {
        let mut cx = context(vec![]);
        command(&mut cx);
        assert_eq!(cx, context(vec![]));
    }
}

#[test]
fn actions_come_with_the_diagnostics_of_the_selection() {
    let span = |start: usize, end: usize| DiagnosticSpan { start, end };
    let mut cx = context(vec![
        server(1, OffsetEncoding::Utf8, all_features()),
        server(2, OffsetEncoding::Utf16, all_features()),
    ]);
    cx.editor.doc.diagnostics =
        vec![span(0, 4), span(0, 5), span(9, 12), span(4, 4), span(8, 9), span(20, 30)];
    code_action(&mut cx);
    let asked = |server: usize, offset_encoding: OffsetEncoding, character: u32| {
        Callback::CodeActions {
            server,
            offset_encoding,
            document: uri("file:///w/a.rs"),
            range: stretch(character),
            diagnostics: vec![1, 3, 4],
            only: None,
        }
    };
    assert_eq!(
        cx.callbacks,
        vec![asked(1, OffsetEncoding::Utf8, 8), asked(2, OffsetEncoding::Utf16, 16)]
    );
    let reversed = Range { anchor: 9, head: 4 };
    assert_eq!(overlapping_diagnostics(&cx.editor.doc.diagnostics, reversed), vec![1, 3, 4]);
    assert_eq!(overlapping_diagnostics(&vec![], reversed), vec![]);
}

#[test]
fn commands_are_run_by_their_server() {
    let command = || Command {
        title: "t".to_owned(),
        command: "c".to_owned(),
        arguments: Some(vec!["{\"a\":1}".to_owned()]),
    };
    let mut cx = context(vec![server(7, OffsetEncoding::Utf8, no_features())]);
    execute_lsp_command(&mut cx, 7, command());
    assert_eq!(cx.callbacks, vec![Callback::ExecuteCommand { server: 7, command: command() }]);
    assert_eq!(told(&cx), None);
    execute_lsp_command(&mut cx, 8, command());
    assert_eq!(cx.callbacks.len(), 1);
    assert_eq!(told(&cx), Some((Severity::Info, NO_SERVER)));
}

#[test]
fn signature_help_is_asked_for() {
    let mut cx = context(vec![
        server(1, OffsetEncoding::Utf8, no_features()),
        server(2, OffsetEncoding::Utf16, all_features()),
    ]);
    signature_help(&mut cx);
    signature_help_impl(&mut cx, SignatureHelpInvoked::Automatic);
    signature_help_impl_with_language_server_id(&mut cx, 1, SignatureHelpInvoked::Manual);
    assert_eq!(
        cx.callbacks,
        vec![
            Callback::SignatureHelp {
                request: request(2, OffsetEncoding::Utf16, 16),
                was_manually_invoked: true,
            },
            Callback::SignatureHelp {
                request: request(2, OffsetEncoding::Utf16, 16),
                was_manually_invoked: false,
            },
            Callback::SignatureHelp {
                request: request(1, OffsetEncoding::Utf8, 8),
                was_manually_invoked: true,
            },
        ]
    );
    assert_eq!(told(&cx), None);
}

#[test]
fn automatic_signature_help_is_silent() {
    let mut cx = context(vec![server(1, OffsetEncoding::Utf8, no_features())]);
    signature_help_impl(&mut cx, SignatureHelpInvoked::Automatic);
    assert_eq!(cx, context(vec![server(1, OffsetEncoding::Utf8, no_features())]));
    signature_help(&mut cx);
    assert_eq!(told(&cx), Some((Severity::Info, NO_SERVER)));
    assert_eq!(cx.callbacks, vec![]);
}

#[test]
fn a_server_without_signature_help_is_asked_nothing() {
    let mut servers = vec![server(1, OffsetEncoding::Utf8, all_features())];
    servers[0].answers_signature_help = false;
    let mut cx = context(servers.clone());
    signature_help(&mut cx);
    assert_eq!(cx, context(servers));
}

#[test]
fn a_server_that_does_not_run_is_reported() {
    let mut cx = context(vec![server(1, OffsetEncoding::Utf8, all_features())]);
    cx.editor.language_servers.clear();
    signature_help_impl(&mut cx, SignatureHelpInvoked::Automatic);
    assert_eq!(told(&cx), Some((Severity::Info, NO_SERVER)));
    assert_eq!(cx.callbacks, vec![]);
}

#[test]
fn the_new_name_is_asked_for() {
    let word = Range { anchor: 2, head: 6 };
    let prompt = |prefill: Range| {
        vec![Layer::Rename(Prompt { prompt: "rename-to:".to_owned(), prefill })]
    };
    let cases = [
        (Range { anchor: 4, head: 9 }, Range { anchor: 4, head: 9 }),
        (Range { anchor: 9, head: 4 }, Range { anchor: 9, head: 4 }),
        (Range { anchor: 4, head: 6 }, Range { anchor: 4, head: 6 }),
        (Range { anchor: 4, head: 5 }, word),
        (Range { anchor: 4, head: 4 }, word),
    ];
    for (selection, filled) in cases {
        let mut cx = context(vec![]);
        cx.editor.doc.selection = selection;
        rename_symbol(&mut cx, word);
        assert_eq!(cx.layers, prompt(filled));
        assert_eq!(told(&cx), None);
    }
}

#[test]
fn the_new_name_is_sent() {
    let mut cx = context(vec![server(4, OffsetEncoding::Utf8, all_features())]);
    rename_event(&mut cx, "other", PromptEvent::Update);
    rename_event(&mut cx, "other", PromptEvent::Abort);
    assert_eq!(cx.callbacks, vec![]);
    rename_event(&mut cx, "better", PromptEvent::Validate);
    assert_eq!(
        cx.callbacks,
        vec![Callback::RenameSymbol {
            request: request(4, OffsetEncoding::Utf8, 8),
            new_name: "better".to_owned(),
        }]
    );
    let mut cx = context(vec![]);
    rename_event(&mut cx, "better", PromptEvent::Validate);
    assert_eq!(told(&cx), Some((Severity::Info, NO_SERVER_WITH_FEATURE)));
}

fn diagnostic(message: &str) -> (Diagnostic, OffsetEncoding) {
    let diagnostic = Diagnostic {
        range: stretch(0),
        severity: None,
        code: None,
        message: message.to_owned(),
    };
    (diagnostic, OffsetEncoding::Utf16)
}

fn messages(picker: &DiagnosticPicker) -> Vec<(&str, &str)> {
    picker.items.iter().map(|item| (item.url.text.as_str(), item.diag.message.as_str())).collect()
}

fn shown_picker(cx: &Context) -> &DiagnosticPicker {
    assert_eq!(cx.layers.len(), 1);
    match &cx.layers[0] {
        Layer::Diagnostics(picker) => picker,
        other => panic!("{:?}", other),
    }
}

fn some_diagnostics() -> Diagnostics {
    let mut diagnostics = Diagnostics::new();
    diagnostics.insert(uri("file:///w/c.rs"), vec![diagnostic("c1")]);
    diagnostics.insert(uri("file:///w/a.rs"), vec![diagnostic("old")]);
    diagnostics.insert(uri("file:///w/b.rs"), vec![diagnostic("b1")]);
    diagnostics.insert(uri("file:///w/a.rs"), vec![diagnostic("a1"), diagnostic("a2")]);
    diagnostics
}

#[test]
fn diagnostics_by_address() {
    let diagnostics = some_diagnostics();
    let addresses: Vec<&str> =
        diagnostics.entries.iter().map(|entry| entry.url.text.as_str()).collect();
    assert_eq!(addresses, vec!["file:///w/a.rs", "file:///w/b.rs", "file:///w/c.rs"]);
    assert_eq!(
        diagnostics.get(&uri("file:///w/a.rs")),
        vec![diagnostic("a1"), diagnostic("a2")]
    );
    assert_eq!(diagnostics.get(&uri("file:///w/d.rs")), vec![]);
    assert_eq!(diagnostics.get(&uri("file:///w/a.r")), vec![]);
}

#[test]
fn a_prefix_comes_first() {
    let mut diagnostics = Diagnostics::new();
    for text in ["file:///ab", "file:///B", "file:///a", "file:///\u{e4}", "file:///z"] {
        diagnostics.insert(uri(text), vec![]);
    }
    let addresses: Vec<&str> =
        diagnostics.entries.iter().map(|entry| entry.url.text.as_str()).collect();
    let mut sorted = addresses.clone();
    sorted.sort();
    assert_eq!(addresses, sorted);
    assert_eq!(addresses[1], "file:///a");
    assert_eq!(addresses[2], "file:///ab");
}

#[test]
fn diagnostics_of_the_document() {
    let mut cx = context(vec![]);
    cx.editor.diagnostics = some_diagnostics();
    diagnostics_picker(&mut cx);
    let picker = shown_picker(&cx);
    assert_eq!(messages(picker), vec![("file:///w/a.rs", "a1"), ("file:///w/a.rs", "a2")]);
    assert_eq!(picker.format, DiagnosticsFormat::HideSourcePath);
    assert_eq!(picker.current_path, Some(uri("file:///w/a.rs")));
    assert_eq!(picker.styles, theme());
    assert!(!picker.truncate_start);
}

#[test]
fn a_document_without_diagnostics_has_an_empty_list() {
    let mut cx = context(vec![]);
    diagnostics_picker(&mut cx);
    assert_eq!(messages(shown_picker(&cx)), vec![]);
}

#[test]
fn a_document_without_an_address_has_no_list() {
    let mut cx = context(vec![]);
    cx.editor.doc.url = None;
    cx.editor.diagnostics = some_diagnostics();
    diagnostics_picker(&mut cx);
    assert_eq!(cx.layers, vec![]);
    workspace_diagnostics_picker(&mut cx);
    assert_eq!(shown_picker(&cx).current_path, None);
}

#[test]
fn diagnostics_of_the_workspace() {
    let mut cx = context(vec![]);
    cx.editor.diagnostics = some_diagnostics();
    cx.editor.status_msg =
        Some(StatusMessage { severity: Severity::Info, text: "kept".to_owned() });
    workspace_diagnostics_picker(&mut cx);
    let picker = shown_picker(&cx);
    assert_eq!(
        messages(picker),
        vec![
            ("file:///w/a.rs", "a1"),
            ("file:///w/a.rs", "a2"),
            ("file:///w/b.rs", "b1"),
            ("file:///w/c.rs", "c1"),
        ]
    );
    assert_eq!(picker.format, DiagnosticsFormat::ShowSourcePath);
    assert_eq!(picker.current_path, Some(uri("file:///w/a.rs")));
    assert_eq!(told(&cx), Some((Severity::Info, "kept")));
}

#[test]
fn both_lists_agree_on_a_document() {
    let mut one = context(vec![]);
    one.editor.diagnostics = some_diagnostics();
    diagnostics_picker(&mut one);
    let mut all = context(vec![]);
    all.editor.diagnostics = some_diagnostics();
    workspace_diagnostics_picker(&mut all);
    let of_document: Vec<(&str, &str)> = messages(shown_picker(&all))
        .into_iter()
        .filter(|(address, _)| *address == "file:///w/a.rs")
        .collect();
    assert_eq!(of_document, messages(shown_picker(&one)));
}

#[test]
fn a_list_of_given_entries() {
    let cx = context(vec![]);
    let entries = vec![
        DocumentDiagnostics { url: uri("file:///z"), diagnostics: vec![diagnostic("z")] },
        DocumentDiagnostics { url: uri("file:///y"), diagnostics: vec![] },
        DocumentDiagnostics { url: uri("file:///x"), diagnostics: vec![diagnostic("x")] },
    ];
    let picker = diag_picker(&cx.editor, &entries, None, DiagnosticsFormat::HideSourcePath);
    assert_eq!(messages(&picker), vec![("file:///z", "z"), ("file:///x", "x")]);
    assert_eq!(picker.items[0].offset_encoding, OffsetEncoding::Utf16);
}
