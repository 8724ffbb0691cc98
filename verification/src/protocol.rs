//! The part of the language server protocol that the commands read.

use vstd::prelude::*;

verus! {

/// The address of a document, kept as the text of its URL.
#[derive(Debug, PartialEq, Eq)]
pub struct Uri {
    pub text: String,
}

impl Clone for Uri {
    fn clone(&self) -> (copy: Self)
        ensures
            copy == *self,
    {
        Uri { text: self.text.clone() }
    }
}

impl Uri {
    /// Addresses are the same when their texts are.
    pub fn same_as(&self, other: &Uri) -> (same: bool)
        ensures
            same == (self.text@ == other.text@),
    {
        self.text == other.text
    }
}

/// Whether `uri` is the address in `current`.
pub open spec fn is_current(current: Option<Uri>, uri: Uri) -> bool {
    current matches Some(url) && url.text@ == uri.text@
}

/// Whether `uri` is the address in `current`.
pub fn names_current(current: &Option<Uri>, uri: &Uri) -> (same: bool)
    ensures
        same == is_current(*current, *uri),
{
    match current {
        Some(url) => url.same_as(uri),
        None => false,
    }
}

/// Copies an address that may be absent.
pub fn clone_url(url: &Option<Uri>) -> (copy: Option<Uri>)
    ensures
        copy == *url,
{
    match url {
        Some(uri) => Some(uri.clone()),
        None => None,
    }
}

/// A place in a document, in lines and in units of the server's encoding.
#[derive(Debug, Clone, Copy, PartialEq, Eq, Structural)]
pub struct Position {
    pub line: u32,
    pub character: u32,
}

/// A stretch of a document, as a server counts it.
#[derive(Debug, Clone, Copy, PartialEq, Eq, Structural)]
pub struct LspRange {
    pub start: Position,
    pub end: Position,
}

/// A stretch of the document at `uri`.
#[derive(Debug, PartialEq, Eq)]
pub struct Location {
    pub uri: Uri,
    pub range: LspRange,
}

/// A link from one place to the definition that it names.
#[derive(Debug, PartialEq, Eq)]
pub struct LocationLink {
    pub origin_selection_range: Option<LspRange>,
    pub target_uri: Uri,
    pub target_range: LspRange,
    pub target_selection_range: LspRange,
}

/// The answer to a request for a definition.
#[derive(Debug, PartialEq, Eq)]
pub enum GotoDefinitionResponse {
    Scalar(Location),
    Array(Vec<Location>),
    Link(Vec<LocationLink>),
}

/// How a server counts inside a line.
#[derive(Debug, Clone, Copy, PartialEq, Eq, Structural)]
pub enum OffsetEncoding {
    Utf8,
    Utf16,
    Utf32,
}

/// A value that is counted differently in each encoding.
#[derive(Debug, PartialEq, Eq)]
pub struct PerEncoding<T> {
    pub utf8: T,
    pub utf16: T,
    pub utf32: T,
}

impl<T> PerEncoding<T> {
    /// The value as `encoding` counts it.
    pub open spec fn at(self, encoding: OffsetEncoding) -> T {
        match encoding {
            OffsetEncoding::Utf8 => self.utf8,
            OffsetEncoding::Utf16 => self.utf16,
            OffsetEncoding::Utf32 => self.utf32,
        }
    }

    /// The value as `encoding` counts it.
    pub fn get(&self, encoding: OffsetEncoding) -> (value: &T)
        ensures
            *value == self.at(encoding),
    {
        match encoding {
            OffsetEncoding::Utf8 => &self.utf8,
            OffsetEncoding::Utf16 => &self.utf16,
            OffsetEncoding::Utf32 => &self.utf32,
        }
    }
}

/// What sort of thing a symbol is, by its number in the protocol.
#[derive(Debug, Clone, Copy, PartialEq, Eq, Structural)]
pub struct SymbolKind {
    pub number: i32,
}

/// A mark on a symbol, by its number in the protocol.
#[derive(Debug, Clone, Copy, PartialEq, Eq, Structural)]
pub struct SymbolTag {
    pub number: i32,
}

/// A symbol with the place where it stands.
#[derive(Debug, PartialEq, Eq)]
pub struct SymbolInformation {
    pub name: String,
    pub kind: SymbolKind,
    pub tags: Option<Vec<SymbolTag>>,
    pub deprecated: Option<bool>,
    pub location: Location,
    pub container_name: Option<String>,
}

/// A symbol of one document, with the symbols inside it.
#[derive(Debug, PartialEq, Eq)]
pub struct DocumentSymbol {
    pub name: String,
    pub kind: SymbolKind,
    pub tags: Option<Vec<SymbolTag>>,
    pub deprecated: Option<bool>,
    pub range: LspRange,
    pub selection_range: LspRange,
    pub children: Option<Vec<DocumentSymbol>>,
}

/// The answer to a request for the symbols of a document.
#[derive(Debug, PartialEq, Eq)]
pub enum DocumentSymbolResponse {
    Flat(Vec<SymbolInformation>),
    Nested(Vec<DocumentSymbol>),
}

/// How bad a diagnostic is.
#[derive(Debug, Clone, Copy, PartialEq, Eq, Structural)]
pub enum DiagnosticSeverity {
    Error,
    Warning,
    Information,
    Hint,
    /// A number that the protocol gives no meaning.
    Other(i32),
}

/// The code of a diagnostic.
#[derive(Debug, PartialEq, Eq)]
pub enum NumberOrString {
    Number(i32),
    String(String),
}

impl Clone for NumberOrString {
    fn clone(&self) -> (copy: Self)
        ensures
            copy == *self,
    {
        match self {
            NumberOrString::Number(number) => NumberOrString::Number(*number),
            NumberOrString::String(string) => NumberOrString::String(string.clone()),
        }
    }
}

/// What a server has to say about a stretch of a document.
#[derive(Debug, PartialEq, Eq)]
pub struct Diagnostic {
    pub range: LspRange,
    pub severity: Option<DiagnosticSeverity>,
    pub code: Option<NumberOrString>,
    pub message: String,
}

impl Clone for Diagnostic {
    fn clone(&self) -> (copy: Self)
        ensures
            copy == *self,
    {
        let code = match &self.code {
            Some(code) => Some(code.clone()),
            None => None,
        };
        Diagnostic {
            range: self.range,
            severity: self.severity,
            code,
            message: self.message.clone(),
        }
    }
}

/// A command that a server runs. Each argument is the text of a JSON value.
#[derive(Debug, PartialEq, Eq)]
pub struct Command {
    pub title: String,
    pub command: String,
    pub arguments: Option<Vec<String>>,
}

/// A replacement of one stretch of text by another.
#[derive(Debug, PartialEq, Eq)]
pub struct TextEdit {
    pub range: LspRange,
    pub new_text: String,
}

impl Clone for TextEdit {
    fn clone(&self) -> (copy: Self)
        ensures
            copy == *self,
    {
        TextEdit { range: self.range, new_text: self.new_text.clone() }
    }
}

/// An edit that a server wants explained to the user.
#[derive(Debug, PartialEq, Eq)]
pub struct AnnotatedTextEdit {
    pub text_edit: TextEdit,
    pub annotation_id: String,
}

/// One of two things.
#[derive(Debug, PartialEq, Eq)]
pub enum OneOf<A, B> {
    Left(A),
    Right(B),
}

/// Edits to one document.
#[derive(Debug, PartialEq, Eq)]
pub struct TextDocumentEdit {
    pub uri: Uri,
    pub version: Option<i32>,
    pub edits: Vec<OneOf<TextEdit, AnnotatedTextEdit>>,
}

/// What to do where the file to write is already there.
#[derive(Debug, Clone, Copy, PartialEq, Eq, Structural)]
pub struct WriteOptions {
    pub overwrite: Option<bool>,
    pub ignore_if_exists: Option<bool>,
}

/// What a deletion may take away.
#[derive(Debug, Clone, Copy, PartialEq, Eq, Structural)]
pub struct DeleteOptions {
    pub recursive: Option<bool>,
    pub ignore_if_not_exists: Option<bool>,
}

/// A change to the files of the workspace.
#[derive(Debug, PartialEq, Eq)]
pub enum ResourceOp {
    Create { uri: Uri, options: Option<WriteOptions> },
    Rename { old_uri: Uri, new_uri: Uri, options: Option<WriteOptions> },
    Delete { uri: Uri, delete_options: Option<DeleteOptions> },
}

impl Clone for ResourceOp {
    fn clone(&self) -> (copy: Self)
        ensures
            copy == *self,
    {
        match self {
            ResourceOp::Create { uri, options } => {
                ResourceOp::Create { uri: uri.clone(), options: *options }
            },
            ResourceOp::Rename { old_uri, new_uri, options } => {
                ResourceOp::Rename {
                    old_uri: old_uri.clone(),
                    new_uri: new_uri.clone(),
                    options: *options,
                }
            },
            ResourceOp::Delete { uri, delete_options } => {
                ResourceOp::Delete { uri: uri.clone(), delete_options: *delete_options }
            },
        }
    }
}

/// One step of a list of changes.
#[derive(Debug, PartialEq, Eq)]
pub enum DocumentChangeOperation {
    Op(ResourceOp),
    Edit(TextDocumentEdit),
}

/// Changes to documents, with or without changes to files.
#[derive(Debug, PartialEq, Eq)]
pub enum DocumentChanges {
    Edits(Vec<TextDocumentEdit>),
    Operations(Vec<DocumentChangeOperation>),
}

/// Changes to the whole workspace.
#[derive(Debug, PartialEq, Eq)]
pub struct WorkspaceEdit {
    /// The edits to each document, no document twice, in any order.
    pub changes: Option<Vec<(Uri, Vec<TextEdit>)>>,
    pub document_changes: Option<DocumentChanges>,
}

/// An action that a server offers.
#[derive(Debug, PartialEq, Eq)]
pub struct CodeAction {
    pub title: String,
    pub edit: Option<WorkspaceEdit>,
    pub command: Option<Command>,
}

/// What a server offers for a stretch of text.
#[derive(Debug, PartialEq, Eq)]
pub enum CodeActionOrCommand {
    Command(Command),
    CodeAction(CodeAction),
}

/// Text with markup.
#[derive(Debug, PartialEq, Eq)]
pub struct MarkupContent {
    pub value: String,
}

/// The documentation of a signature.
#[derive(Debug, PartialEq, Eq)]
pub enum Documentation {
    String(String),
    MarkupContent(MarkupContent),
}

/// Where a parameter stands in the label of its signature: by its text, or by
/// offsets in UTF-16 units, the end excluded.
#[derive(Debug, PartialEq, Eq)]
pub enum ParameterLabel {
    Simple(String),
    LabelOffsets { start: u32, end: u32 },
}

/// A parameter of a signature.
#[derive(Debug, PartialEq, Eq)]
pub struct ParameterInformation {
    pub label: ParameterLabel,
}

/// The signature of something that can be called.
#[derive(Debug, PartialEq, Eq)]
pub struct SignatureInformation {
    pub label: String,
    pub documentation: Option<Documentation>,
    pub parameters: Option<Vec<ParameterInformation>>,
    pub active_parameter: Option<u32>,
}

/// The signatures that fit a call.
#[derive(Debug, PartialEq, Eq)]
pub struct SignatureHelp {
    pub signatures: Vec<SignatureInformation>,
    pub active_signature: Option<u32>,
    pub active_parameter: Option<u32>,
}

/// A piece of hover text, in the older form.
#[derive(Debug, PartialEq, Eq)]
pub enum MarkedString {
    String(String),
    LanguageString { language: String, value: String },
}

/// What a server says of the text under the cursor.
#[derive(Debug, PartialEq, Eq)]
pub enum HoverContents {
    Scalar(MarkedString),
    Array(Vec<MarkedString>),
    Markup(MarkupContent),
}

/// An occurrence of the symbol under the cursor.
#[derive(Debug, Clone, Copy, PartialEq, Eq, Structural)]
pub struct DocumentHighlight {
    pub range: LspRange,
}

/// An address is the current one exactly where there is a current one with the
/// same text.
pub proof fn law_current_address(current: Option<Uri>, uri: Uri)
    ensures
        is_current(None, uri) == false,
        current matches Some(url) ==> (is_current(current, uri) <==> url.text@ == uri.text@),
{
}

/// Each encoding has a value of its own.
pub proof fn law_encodings_are_told_apart<T>(value: PerEncoding<T>)
    ensures
        value.at(OffsetEncoding::Utf8) == value.utf8,
        value.at(OffsetEncoding::Utf16) == value.utf16,
        value.at(OffsetEncoding::Utf32) == value.utf32,
{
}

} // verus!
