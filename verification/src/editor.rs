//! The part of the editor that the commands read and change.

use crate::diagnostics::{DiagnosticPicker, Diagnostics};
use crate::labels::DiagnosticStyles;
use crate::protocol::{Command, LspRange, OffsetEncoding, PerEncoding, Position, Uri};
use crate::selection::Range;
use vstd::prelude::*;

verus! {

/// Something that a server may be asked for.
#[derive(Debug, Clone, Copy, PartialEq, Eq, Structural)]
pub enum LanguageServerFeature {
    GotoDefinition,
    GotoTypeDefinition,
    GotoImplementation,
    GotoReference,
    SignatureHelp,
    Hover,
    DocumentHighlight,
    CodeAction,
    DocumentSymbols,
    WorkspaceSymbols,
    RenameSymbol,
}

/// What a server may be asked for in a document.
#[derive(Debug, Clone, Copy, PartialEq, Eq, Structural)]
pub struct Features {
    pub goto_definition: bool,
    pub goto_type_definition: bool,
    pub goto_implementation: bool,
    pub goto_reference: bool,
    pub signature_help: bool,
    pub hover: bool,
    pub document_highlight: bool,
    pub code_action: bool,
    pub document_symbols: bool,
    pub workspace_symbols: bool,
    pub rename_symbol: bool,
}

/// A server that runs.
#[derive(Debug, Clone, Copy, PartialEq, Eq, Structural)]
pub struct LanguageServer {
    pub id: usize,
    pub offset_encoding: OffsetEncoding,
    pub features: Features,
    /// Whether the server itself answers requests for signatures.
    pub answers_signature_help: bool,
}

impl LanguageServer {
    /// Whether the server may be asked for `feature`.
    pub open spec fn has(self, feature: LanguageServerFeature) -> bool {
        match feature {
            LanguageServerFeature::GotoDefinition => self.features.goto_definition,
            LanguageServerFeature::GotoTypeDefinition => self.features.goto_type_definition,
            LanguageServerFeature::GotoImplementation => self.features.goto_implementation,
            LanguageServerFeature::GotoReference => self.features.goto_reference,
            LanguageServerFeature::SignatureHelp => self.features.signature_help,
            LanguageServerFeature::Hover => self.features.hover,
            LanguageServerFeature::DocumentHighlight => self.features.document_highlight,
            LanguageServerFeature::CodeAction => self.features.code_action,
            LanguageServerFeature::DocumentSymbols => self.features.document_symbols,
            LanguageServerFeature::WorkspaceSymbols => self.features.workspace_symbols,
            LanguageServerFeature::RenameSymbol => self.features.rename_symbol,
        }
    }

    /// Whether the server may be asked for `feature`.
    pub fn supports(&self, feature: LanguageServerFeature) -> (supported: bool)
        ensures
            supported == self.has(feature),
    {
        match feature {
            LanguageServerFeature::GotoDefinition => self.features.goto_definition,
            LanguageServerFeature::GotoTypeDefinition => self.features.goto_type_definition,
            LanguageServerFeature::GotoImplementation => self.features.goto_implementation,
            LanguageServerFeature::GotoReference => self.features.goto_reference,
            LanguageServerFeature::SignatureHelp => self.features.signature_help,
            LanguageServerFeature::Hover => self.features.hover,
            LanguageServerFeature::DocumentHighlight => self.features.document_highlight,
            LanguageServerFeature::CodeAction => self.features.code_action,
            LanguageServerFeature::DocumentSymbols => self.features.document_symbols,
            LanguageServerFeature::WorkspaceSymbols => self.features.workspace_symbols,
            LanguageServerFeature::RenameSymbol => self.features.rename_symbol,
        }
    }
}

/// Where a diagnostic of the document stands, in characters.
#[derive(Debug, Clone, Copy, PartialEq, Eq, Structural)]
pub struct DiagnosticSpan {
    pub start: usize,
    pub end: usize,
}

/// The document that has the focus, in the view that has it.
#[derive(Debug, PartialEq, Eq)]
pub struct Document {
    pub url: Option<Uri>,
    /// The address under which the servers know the document.
    pub identifier: Uri,
    /// The servers of the document, the preferred ones first.
    pub language_servers: Vec<LanguageServer>,
    /// Where the cursor is.
    pub position: PerEncoding<Position>,
    /// The primary selection.
    pub selection: Range,
    /// The primary selection as a server counts it.
    pub selection_range: PerEncoding<LspRange>,
    /// The diagnostics of the document.
    pub diagnostics: Vec<DiagnosticSpan>,
}

/// The servers that may be asked for `feature`, in order.
pub open spec fn servers_with(
    servers: Seq<LanguageServer>,
    feature: LanguageServerFeature,
) -> Seq<LanguageServer> {
    servers.filter(|server: LanguageServer| server.has(feature))
}

/// The first of some servers.
pub open spec fn first_of(servers: Seq<LanguageServer>) -> Option<LanguageServer> {
    if servers.len() > 0 {
        Some(servers[0])
    } else {
        None
    }
}

/// The first server that may be asked for `feature`.
pub open spec fn first_with(doc: Document, feature: LanguageServerFeature) -> Option<
    LanguageServer,
> {
    first_of(servers_with(doc.language_servers@, feature))
}

impl Document {
    /// The servers that may be asked for `feature`, in order.
    pub fn language_servers_with_feature(&self, feature: LanguageServerFeature) -> (found: Vec<
        LanguageServer,
    >)
        ensures
            found@ == servers_with(self.language_servers@, feature),
    {
        let ghost wanted = |server: LanguageServer| server.has(feature);
        let mut found: Vec<LanguageServer> = Vec::new();
        let mut i: usize = 0;
        assert(self.language_servers@.take(0).filter(wanted) =~= Seq::empty()) by {
            reveal(Seq::filter);
        }
        while i < self.language_servers.len()
            invariant
                i <= self.language_servers@.len(),
                wanted == (|server: LanguageServer| server.has(feature)),
                found@ == self.language_servers@.take(i as int).filter(wanted),
            decreases self.language_servers@.len() - i,
        {
            let server = self.language_servers[i];
            if server.supports(feature) {
                found.push(server);
            }
            proof {
                let longer = self.language_servers@.take(i + 1);
                assert(longer.drop_last() =~= self.language_servers@.take(i as int));
                reveal(Seq::filter);
            }
            i += 1;
        }
        assert(self.language_servers@.take(i as int) =~= self.language_servers@);
        found
    }

    /// The first server that may be asked for `feature`.
    pub fn first_language_server(&self, feature: LanguageServerFeature) -> (found: Option<
        LanguageServer,
    >)
        ensures
            found == first_with(*self, feature),
    {
        let servers = self.language_servers_with_feature(feature);
        if servers.len() > 0 {
            Some(servers[0])
        } else {
            None
        }
    }
}

/// How bad a message is.
#[derive(Debug, Clone, Copy, PartialEq, Eq, Structural)]
pub enum Severity {
    Info,
    Error,
}

/// The message in the status line.
#[derive(Debug, PartialEq, Eq)]
pub struct StatusMessage {
    pub severity: Severity,
    pub text: String,
}

/// The user's choices for language servers.
#[derive(Debug, Clone, Copy, PartialEq, Eq, Structural)]
pub struct LspConfig {
    pub auto_signature_help: bool,
    pub display_signature_help_docs: bool,
}

/// The editor.
#[derive(Debug, PartialEq, Eq)]
pub struct Editor {
    /// The document that has the focus.
    pub doc: Document,
    /// All servers that run.
    pub language_servers: Vec<LanguageServer>,
    /// The diagnostics of all documents.
    pub diagnostics: Diagnostics,
    /// The styles that the theme gives to the four severities.
    pub theme: DiagnosticStyles,
    pub config: LspConfig,
    pub status_msg: Option<StatusMessage>,
}

/// The first server with the number `id`.
pub open spec fn server_by_id(servers: Seq<LanguageServer>, id: usize) -> Option<LanguageServer> {
    first_of(servers.filter(|server: LanguageServer| server.id == id))
}

/// Whether `after` is `before` with another message in the status line.
pub open spec fn shows(before: Editor, after: Editor, severity: Severity, text: Seq<char>) -> bool {
    &&& after == Editor { status_msg: after.status_msg, ..before }
    &&& after.status_msg matches Some(message) && message.severity == severity && message.text@
        == text
}

impl Editor {
    /// Shows a message in the status line.
    pub fn set_status(&mut self, text: String)
        ensures
            shows(*old(self), *final(self), Severity::Info, text@),
    {
        self.status_msg = Some(StatusMessage { severity: Severity::Info, text });
    }

    /// Shows an error in the status line.
    pub fn set_error(&mut self, text: String)
        ensures
            shows(*old(self), *final(self), Severity::Error, text@),
    {
        self.status_msg = Some(StatusMessage { severity: Severity::Error, text });
    }

    /// The first server with the number `id`.
    pub fn language_server_by_id(&self, id: usize) -> (found: Option<LanguageServer>)
        ensures
            found == server_by_id(self.language_servers@, id),
    {
        let ghost wanted = |server: LanguageServer| server.id == id;
        let mut i: usize = 0;
        assert(self.language_servers@.take(0).filter(wanted) =~= Seq::empty()) by {
            reveal(Seq::filter);
        }
        while i < self.language_servers.len()
            invariant
                i <= self.language_servers@.len(),
                wanted == (|server: LanguageServer| server.id == id),
                self.language_servers@.take(i as int).filter(wanted) == Seq::<LanguageServer>::empty(),
            decreases self.language_servers@.len() - i,
        {
            let server = self.language_servers[i];
            proof {
                let longer = self.language_servers@.take(i + 1);
                assert(longer.drop_last() =~= self.language_servers@.take(i as int));
                reveal(Seq::filter);
            }
            if server.id == id {
                proof {
                    lemma_filter_prefix(self.language_servers@, i + 1, wanted);
                    assert(self.language_servers@.take(i + 1).filter(wanted)[0] == server);
                }
                return Some(server);
            }
            i += 1;
        }
        assert(self.language_servers@.take(i as int) =~= self.language_servers@);
        None
    }
}

/// What a filter keeps of a prefix stands first in what it keeps of the whole.
proof fn lemma_filter_prefix(
    servers: Seq<LanguageServer>,
    count: int,
    wanted: spec_fn(LanguageServer) -> bool,
)
    requires
        0 <= count <= servers.len(),
    ensures
        servers.take(count).filter(wanted).len() <= servers.filter(wanted).len(),
        forall|k: int|
            0 <= k < servers.take(count).filter(wanted).len() ==> servers.filter(wanted)[k]
                == #[trigger] servers.take(count).filter(wanted)[k],
    decreases servers.len() - count,
{
    if count == servers.len() {
        assert(servers.take(count) =~= servers);
    } else {
        reveal(Seq::filter);
        assert(servers.take(count + 1).drop_last() =~= servers.take(count));
        lemma_filter_prefix(servers, count + 1, wanted);
        let shorter = servers.take(count).filter(wanted);
        let longer = servers.take(count + 1).filter(wanted);
        assert forall|k: int| 0 <= k < shorter.len() implies servers.filter(wanted)[k]
            == #[trigger] shorter[k] by {
            assert(longer[k] == shorter[k]);
        }
    }
}

/// A request about the place where the cursor is.
#[derive(Debug, PartialEq, Eq)]
pub struct PositionRequest {
    pub server: usize,
    pub offset_encoding: OffsetEncoding,
    pub document: Uri,
    pub position: Position,
}

/// The request to `server` about the place where the cursor of `doc` is.
pub open spec fn position_request(doc: Document, server: LanguageServer) -> PositionRequest {
    PositionRequest {
        server: server.id,
        offset_encoding: server.offset_encoding,
        document: doc.identifier,
        position: doc.position.at(server.offset_encoding),
    }
}

/// Which definition is asked for.
#[derive(Debug, Clone, Copy, PartialEq, Eq, Structural)]
pub enum GotoKind {
    Definition,
    TypeDefinition,
    Implementation,
    Reference,
}

/// A request that is to be sent, with what its answer is needed for.
#[derive(Debug, PartialEq, Eq)]
pub enum Callback {
    DocumentSymbols {
        server: usize,
        offset_encoding: OffsetEncoding,
        document: Uri,
        current_url: Option<Uri>,
    },
    WorkspaceSymbols {
        server: usize,
        offset_encoding: OffsetEncoding,
        query: String,
        current_url: Option<Uri>,
    },
    CodeActions {
        server: usize,
        offset_encoding: OffsetEncoding,
        document: Uri,
        range: LspRange,
        /// The diagnostics of the document that go with the request, by number.
        diagnostics: Vec<usize>,
        /// The kinds of actions that are wanted, or all where this is unset.
        only: Option<Vec<String>>,
    },
    Goto { kind: GotoKind, request: PositionRequest },
    SignatureHelp { request: PositionRequest, was_manually_invoked: bool },
    Hover(PositionRequest),
    DocumentHighlight(PositionRequest),
    RenameSymbol { request: PositionRequest, new_name: String },
    ExecuteCommand { server: usize, command: Command },
}

/// A question to the user, with an answer that is already filled in.
#[derive(Debug, PartialEq, Eq)]
pub struct Prompt {
    pub prompt: String,
    /// The stretch of the document whose text is filled in.
    pub prefill: Range,
}

/// Something to show on top of the text.
#[derive(Debug, PartialEq, Eq)]
pub enum Layer {
    Diagnostics(DiagnosticPicker),
    Rename(Prompt),
}

/// What a command works on.
#[derive(Debug, PartialEq, Eq)]
pub struct Context {
    pub editor: Editor,
    /// The requests that are to be sent, in order.
    pub callbacks: Vec<Callback>,
    /// The layers that are to be shown, the last one on top.
    pub layers: Vec<Layer>,
}

/// Whether `after` is `before` with another message in the status line.
pub open spec fn told(before: Context, after: Context, severity: Severity, text: Seq<char>) -> bool {
    &&& shows(before.editor, after.editor, severity, text)
    &&& after.callbacks == before.callbacks
    &&& after.layers == before.layers
}

/// Whether `after` is `before` with one more request to send.
pub open spec fn asked(before: Context, after: Context, callback: Callback) -> bool {
    &&& after.editor == before.editor
    &&& after.callbacks@ == before.callbacks@.push(callback)
    &&& after.layers == before.layers
}

/// Whether `after` is `before` with one more layer on top.
pub open spec fn pushed(before: Context, after: Context, layer: Layer) -> bool {
    &&& after.editor == before.editor
    &&& after.callbacks == before.callbacks
    &&& after.layers@ == before.layers@.push(layer)
}

/// The message where no server of the document may be asked for a feature.
pub open spec fn no_server_with_feature_message() -> Seq<char> {
    "Language server not active for current buffer or no language server supports this feature"@
}

/// The message where a server does not run, or none does.
pub open spec fn no_server_message() -> Seq<char> {
    "Language server not active for current buffer"@
}

impl Context {
    /// The first server of the document that may be asked for `feature`. Where
    /// there is none, the status line says so.
    pub fn language_server_with_feature(&mut self, feature: LanguageServerFeature) -> (found: Option<
        LanguageServer,
    >)
        ensures
            found == first_with(old(self).editor.doc, feature),
            found is Some ==> *final(self) == *old(self),
            found is None ==> told(
                *old(self),
                *final(self),
                Severity::Info,
                no_server_with_feature_message(),
            ),
    {
        let found = self.editor.doc.first_language_server(feature);
        if found.is_none() {
            self.editor.set_status(
                "Language server not active for current buffer or no language server supports this feature".to_owned(),
            );
        }
        found
    }

    /// The server with the number `id`. Where there is none, the status line
    /// says so.
    pub fn language_server_by_id(&mut self, id: usize) -> (found: Option<LanguageServer>)
        ensures
            found == server_by_id(old(self).editor.language_servers@, id),
            found is Some ==> *final(self) == *old(self),
            found is None ==> told(*old(self), *final(self), Severity::Info, no_server_message()),
    {
        let found = self.editor.language_server_by_id(id);
        if found.is_none() {
            self.editor.set_status("Language server not active for current buffer".to_owned());
        }
        found
    }
}

/// The request to `server` about the place where the cursor of `doc` is.
pub fn request_at_cursor(doc: &Document, server: &LanguageServer) -> (request: PositionRequest)
    ensures
        request == position_request(*doc, *server),
{
    PositionRequest {
        server: server.id,
        offset_encoding: server.offset_encoding,
        document: doc.identifier.clone(),
        position: *doc.position.get(server.offset_encoding),
    }
}

/// The server that is asked for a feature is the first of the document that has
/// it, and none is asked only where none has it.
pub proof fn law_first_server(doc: Document, feature: LanguageServerFeature)
    ensures
        match first_with(doc, feature) {
            Some(server) => exists|i: int|
                {
                    &&& 0 <= i < doc.language_servers@.len()
                    &&& server == #[trigger] doc.language_servers@[i]
                    &&& server.has(feature)
                    &&& forall|k: int|
                        0 <= k < i ==> !(#[trigger] doc.language_servers@[k]).has(feature)
                },
            None => forall|k: int|
                0 <= k < doc.language_servers@.len() ==> !(
                #[trigger] doc.language_servers@[k]).has(feature),
        },
{
    lemma_first_kept(doc.language_servers@, |server: LanguageServer| server.has(feature));
}

/// What a filter keeps first is the first that it keeps.
proof fn lemma_first_kept(servers: Seq<LanguageServer>, wanted: spec_fn(LanguageServer) -> bool)
    ensures
        match first_of(servers.filter(wanted)) {
            Some(server) => exists|i: int|
                {
                    &&& 0 <= i < servers.len()
                    &&& server == #[trigger] servers[i]
                    &&& wanted(server)
                    &&& forall|k: int| 0 <= k < i ==> !wanted(#[trigger] servers[k])
                },
            None => forall|k: int| 0 <= k < servers.len() ==> !wanted(#[trigger] servers[k]),
        },
    decreases servers.len(),
{
    reveal(Seq::filter);
    if servers.len() > 0 {
        let fewer = servers.drop_last();
        lemma_first_kept(fewer, wanted);
        match first_of(fewer.filter(wanted)) {
            Some(server) => {
                let i = choose|i: int|
                    {
                        &&& 0 <= i < fewer.len()
                        &&& server == #[trigger] fewer[i]
                        &&& wanted(server)
                        &&& forall|k: int| 0 <= k < i ==> !wanted(#[trigger] fewer[k])
                    };
                assert(servers[i] == server);
                assert(servers.filter(wanted)[0] == server);
                assert forall|k: int| 0 <= k < i implies !wanted(#[trigger] servers[k]) by {
                    assert(fewer[k] == servers[k]);
                }
            },
            None => {
                assert forall|k: int| 0 <= k < servers.len() - 1 implies !wanted(
                    #[trigger] servers[k],
                ) by {
                    assert(fewer[k] == servers[k]);
                }
                assert(servers[servers.len() - 1] == servers.last());
            },
        }
    }
}

/// Each feature has a flag of its own.
pub proof fn law_features_are_told_apart(server: LanguageServer)
    ensures
        server.has(LanguageServerFeature::GotoDefinition) == server.features.goto_definition,
        server.has(LanguageServerFeature::GotoTypeDefinition)
            == server.features.goto_type_definition,
        server.has(LanguageServerFeature::GotoImplementation)
            == server.features.goto_implementation,
        server.has(LanguageServerFeature::GotoReference) == server.features.goto_reference,
        server.has(LanguageServerFeature::SignatureHelp) == server.features.signature_help,
        server.has(LanguageServerFeature::Hover) == server.features.hover,
        server.has(LanguageServerFeature::DocumentHighlight) == server.features.document_highlight,
        server.has(LanguageServerFeature::CodeAction) == server.features.code_action,
        server.has(LanguageServerFeature::DocumentSymbols) == server.features.document_symbols,
        server.has(LanguageServerFeature::WorkspaceSymbols) == server.features.workspace_symbols,
        server.has(LanguageServerFeature::RenameSymbol) == server.features.rename_symbol,
{
}

/// Every server that has a feature is found, and no other, in the order of the
/// list: those of one list come before those of a list that follows it.
pub proof fn law_servers_come_in_order(
    one: Seq<LanguageServer>,
    other: Seq<LanguageServer>,
    server: LanguageServer,
    feature: LanguageServerFeature,
)
    ensures
        servers_with(one + other, feature) == servers_with(one, feature) + servers_with(
            other,
            feature,
        ),
        servers_with(Seq::empty(), feature).len() == 0,
        server.has(feature) ==> servers_with(seq![server], feature) == seq![server],
        !server.has(feature) ==> servers_with(seq![server], feature).len() == 0,
{
    let wanted = |server: LanguageServer| server.has(feature);
    Seq::filter_distributes_over_add(one, other, wanted);
    reveal(Seq::filter);
    assert(seq![server].drop_last() =~= Seq::empty());
    assert(seq![server].drop_last().filter(wanted) =~= Seq::empty());
    assert(server.has(feature) ==> servers_with(seq![server], feature) =~= seq![server]);
}

/// A server is found by its number: the first of the list that has it, and none
/// only where none has it.
pub proof fn law_server_by_number(servers: Seq<LanguageServer>, id: usize)
    ensures
        match server_by_id(servers, id) {
            Some(server) => exists|i: int|
                {
                    &&& 0 <= i < servers.len()
                    &&& server == #[trigger] servers[i]
                    &&& server.id == id
                    &&& forall|k: int| 0 <= k < i ==> (#[trigger] servers[k]).id != id
                },
            None => forall|k: int| 0 <= k < servers.len() ==> (#[trigger] servers[k]).id != id,
        },
{
    lemma_first_kept(servers, |server: LanguageServer| server.id == id);
}

/// A request about the cursor goes to its server, about the document, at the place
/// of the cursor as that server counts it.
pub proof fn law_request_is_at_the_cursor(doc: Document, server: LanguageServer)
    ensures
        position_request(doc, server).server == server.id,
        position_request(doc, server).offset_encoding == server.offset_encoding,
        position_request(doc, server).document == doc.identifier,
        server.offset_encoding is Utf8 ==> position_request(doc, server).position
            == doc.position.utf8,
        server.offset_encoding is Utf16 ==> position_request(doc, server).position
            == doc.position.utf16,
        server.offset_encoding is Utf32 ==> position_request(doc, server).position
            == doc.position.utf32,
{
}

/// A message changes the status line, and nothing else.
pub proof fn law_message_changes_only_the_status_line(
    before: Context,
    after: Context,
    severity: Severity,
    text: Seq<char>,
)
    requires
        told(before, after, severity, text),
    ensures
        after.editor.status_msg is Some,
        (after.editor.status_msg->0).severity == severity,
        (after.editor.status_msg->0).text@ == text,
        after.editor.doc == before.editor.doc,
        after.editor.language_servers == before.editor.language_servers,
        after.editor.diagnostics == before.editor.diagnostics,
        after.editor.theme == before.editor.theme,
        after.editor.config == before.editor.config,
        after.callbacks == before.callbacks,
        after.layers == before.layers,
{
}

/// A message that an answer leads to changes the status line, and nothing else.
pub proof fn law_shown_message_changes_only_the_status_line(
    before: Editor,
    after: Editor,
    severity: Severity,
    text: Seq<char>,
)
    requires
        shows(before, after, severity, text),
    ensures
        after.status_msg is Some,
        (after.status_msg->0).severity == severity,
        (after.status_msg->0).text@ == text,
        after.doc == before.doc,
        after.language_servers == before.language_servers,
        after.diagnostics == before.diagnostics,
        after.theme == before.theme,
        after.config == before.config,
{
}

/// A request is sent after those that were sent before, and changes nothing else.
pub proof fn law_request_is_sent_last(before: Context, after: Context, callback: Callback)
    requires
        asked(before, after, callback),
    ensures
        after.editor == before.editor,
        after.layers == before.layers,
        after.callbacks@.len() == before.callbacks@.len() + 1,
        after.callbacks@.last() == callback,
        forall|i: int|
            0 <= i < before.callbacks@.len() ==> #[trigger] after.callbacks@[i]
                == before.callbacks@[i],
{
}

/// A layer is shown on top of those that were shown before, and changes nothing
/// else.
pub proof fn law_layer_is_shown_on_top(before: Context, after: Context, layer: Layer)
    requires
        pushed(before, after, layer),
    ensures
        after.editor == before.editor,
        after.callbacks == before.callbacks,
        after.layers@.len() == before.layers@.len() + 1,
        after.layers@.last() == layer,
        forall|i: int|
            0 <= i < before.layers@.len() ==> #[trigger] after.layers@[i] == before.layers@[i],
{
}

/// The two messages about missing servers read as follows.
pub proof fn law_missing_server_messages()
    ensures
        no_server_with_feature_message()
            == "Language server not active for current buffer or no language server supports this feature"@,
        no_server_message() == "Language server not active for current buffer"@,
{
}

} // verus!
