//! How locations, symbols, diagnostics and actions are shown in a list.

use crate::foreign::{
    gives_path, may_leave, may_show, strip_prefix, to_string_lossy, url_path, url_path_of,
    url_scheme, url_scheme_of, url_to_file_path,
};
use crate::protocol::{
    is_current, names_current, CodeActionOrCommand, Diagnostic, DiagnosticSeverity, Location,
    LspRange, NumberOrString, OffsetEncoding, SymbolInformation, Uri,
};
use crate::text::{decimal, signed_decimal, signed_to_text, text_view, unsigned_to_text};
use std::path::PathBuf;
use vstd::prelude::*;
use vstd::string::StringExecFns;

verus! {

/// A colour of the terminal.
#[derive(Debug, Clone, Copy, PartialEq, Eq, Structural)]
pub enum Color {
    Reset,
    /// One of the sixteen colours that have a name, by its number.
    Named(u8),
    Indexed(u8),
    Rgb(u8, u8, u8),
}

/// How a piece of text looks. The modifiers are sets of flags.
#[derive(Debug, Clone, Copy, PartialEq, Eq, Structural)]
pub struct Style {
    pub fg: Option<Color>,
    pub bg: Option<Color>,
    pub underline_color: Option<Color>,
    pub underline_style: Option<u8>,
    pub add_modifier: u16,
    pub sub_modifier: u16,
}

/// The style that changes nothing.
pub open spec fn plain_style() -> Style {
    Style {
        fg: None,
        bg: None,
        underline_color: None,
        underline_style: None,
        add_modifier: 0,
        sub_modifier: 0,
    }
}

impl Default for Style {
    fn default() -> (style: Style)
        ensures
            style == plain_style(),
    {
        Style {
            fg: None,
            bg: None,
            underline_color: None,
            underline_style: None,
            add_modifier: 0,
            sub_modifier: 0,
        }
    }
}

/// A piece of text with its style.
#[derive(Debug, PartialEq, Eq)]
pub struct Span {
    pub content: String,
    pub style: Style,
}

/// What a `Span` shows.
#[verifier::ext_equal]
pub struct SpanView {
    pub content: Seq<char>,
    pub style: Style,
}

impl View for Span {
    type V = SpanView;

    open spec fn view(&self) -> SpanView {
        SpanView { content: self.content@, style: self.style }
    }
}

/// A line of text, piece by piece.
#[derive(Debug, PartialEq, Eq)]
pub struct Spans(pub Vec<Span>);

impl View for Spans {
    type V = Seq<SpanView>;

    open spec fn view(&self) -> Seq<SpanView> {
        self.0@.map_values(|span: Span| span@)
    }
}

/// A line that is one piece of text without a style.
pub open spec fn raw_line(content: Seq<char>) -> Seq<SpanView> {
    seq![SpanView { content, style: plain_style() }]
}

/// A line that is one piece of text without a style.
fn raw(content: String) -> (line: Spans)
    ensures
        line@ == raw_line(content@),
{
    let mut spans: Vec<Span> = Vec::new();
    spans.push(Span { content, style: Style::default() });
    let line = Spans(spans);
    assert(line@ =~= raw_line(content@));
    line
}

/// The label of a location: its file, where there is one to show, or its
/// address; a colon; and its line, counted from zero.
pub open spec fn location_text(location: Location, file: Option<Seq<char>>) -> Seq<char> {
    (match file {
        Some(file) => file,
        None => location.uri.text@,
    }) + ":"@ + decimal(location.range.start.line as nat)
}

/// The label of a location whose file is shown as `file`.
pub fn location_label(location: &Location, file: Option<String>) -> (label: Spans)
    ensures
        label@ == raw_line(location_text(*location, text_view(file))),
{
    let mut text = match file {
        Some(file) => file,
        None => location.uri.text.clone(),
    };
    text.append(":");
    text.append(unsigned_to_text(location.range.start.line as u64).as_str());
    raw(text)
}

/// The path of a location that its label shows, where the scheme of its address
/// is `scheme`, the address gives `path`, and `rest` is what is left of that path
/// in the working directory. Only a `file` URL shows a path, and a path outside
/// the working directory is shown whole.
pub open spec fn shown_path(
    scheme: Option<Seq<char>>,
    path: Option<PathBuf>,
    rest: Option<PathBuf>,
) -> Option<PathBuf> {
    if scheme == Some("file"@) {
        match (path, rest) {
            (Some(_), Some(rest)) => Some(rest),
            (whole, _) => whole,
        }
    } else {
        None
    }
}

/// Whether a scheme is that of files.
fn is_file_scheme(scheme: &Option<String>) -> (is_file: bool)
    ensures
        is_file == (text_view(*scheme) == Some("file"@)),
{
    match scheme {
        Some(scheme) => *scheme == "file".to_owned(),
        None => false,
    }
}

/// The path of a location that its label shows.
pub fn path_to_show(
    scheme: Option<String>,
    path: Option<PathBuf>,
    rest: Option<PathBuf>,
) -> (shown: Option<PathBuf>)
    ensures
        shown == shown_path(text_view(scheme), path, rest),
{
    if !is_file_scheme(&scheme) {
        return None;
    }
    match path {
        Some(path) => match rest {
            Some(rest) => Some(rest),
            None => Some(path),
        },
        None => None,
    }
}

/// Whether `label` is right for a location whose address gives `path`, of which
/// `rest` is left in the working directory: it shows the path that is to be shown,
/// and the address where there is none.
pub open spec fn right_location_label(
    label: Seq<SpanView>,
    location: Location,
    path: Option<PathBuf>,
    rest: Option<PathBuf>,
) -> bool {
    exists|file: Option<Seq<char>>|
        {
            &&& label == raw_line(#[trigger] location_text(location, file))
            &&& match shown_path(url_scheme_of(location.uri.text@), path, rest) {
                Some(shown) => file matches Some(file) && may_show(shown, file),
                None => file is None,
            }
        }
}

/// Whether `rest` is what may be left of `path` in the directory `cwdir`.
pub open spec fn leaves_of(path: Option<PathBuf>, cwdir: PathBuf, rest: Option<PathBuf>) -> bool {
    match path {
        Some(path) => may_leave(path, cwdir, rest),
        None => rest is None,
    }
}

impl Location {
    /// The label of the location, in the directory `cwdir`.
    pub fn label(&self, cwdir: &PathBuf) -> (label: Spans)
        ensures
            exists|path: Option<PathBuf>, rest: Option<PathBuf>|
                {
                    &&& #[trigger] right_location_label(label@, *self, path, rest)
                    &&& url_scheme_of(self.uri.text@) == Some("file"@) ==> gives_path(
                        self.uri.text@,
                        path,
                    )
                    &&& leaves_of(path, *cwdir, rest)
                },
    {
        let scheme = url_scheme(self.uri.text.as_str());
        let path = if is_file_scheme(&scheme) {
            url_to_file_path(self.uri.text.as_str())
        } else {
            None
        };
        let rest = match &path {
            Some(path) => strip_prefix(path, cwdir),
            None => None,
        };
        let ghost given = (path, rest);
        let file = match path_to_show(scheme, path, rest) {
            Some(shown) => Some(to_string_lossy(&shown)),
            None => None,
        };
        let label = location_label(self, file);
        assert(label@ == raw_line(location_text(*self, text_view(file))));
        assert(right_location_label(label@, *self, given.0, given.1));
        label
    }
}

/// The label of a symbol: its name alone in the document that has the focus,
/// and else its name with its file, where it has one, or its address.
pub open spec fn symbol_text(
    info: SymbolInformation,
    current: Option<Uri>,
    relative_path: Option<Seq<char>>,
) -> Seq<char> {
    if is_current(current, info.location.uri) {
        info.name@
    } else {
        info.name@ + " ("@ + (match relative_path {
            Some(path) => path,
            None => info.location.uri.text@,
        }) + ")"@
    }
}

/// The path whose relative form the label of a symbol shows, where its address
/// gives `path`: none in the document that has the focus, and else that path.
pub open spec fn symbol_path(
    info: SymbolInformation,
    current: Option<Uri>,
    path: Option<PathBuf>,
) -> Option<PathBuf> {
    if is_current(current, info.location.uri) {
        None
    } else {
        path
    }
}

impl SymbolInformation {
    /// The path whose relative form the label shows, where the address of the
    /// symbol gave `path`.
    pub fn choose_label_path(&self, current: &Option<Uri>, path: Option<PathBuf>) -> (shown: Option<
        PathBuf,
    >)
        ensures
            shown == symbol_path(*self, *current, path),
    {
        if names_current(current, &self.location.uri) {
            None
        } else {
            path
        }
    }

    /// The path whose relative form the label shows. There is none in the
    /// document that has the focus, nor where the address is no path.
    pub fn label_path(&self, current: &Option<Uri>) -> (shown: Option<PathBuf>)
        ensures
            exists|path: Option<PathBuf>|
                {
                    &&& shown == #[trigger] symbol_path(*self, *current, path)
                    &&& is_current(*current, self.location.uri) || gives_path(
                        self.location.uri.text@,
                        path,
                    )
                },
    {
        let path = if names_current(current, &self.location.uri) {
            None
        } else {
            url_to_file_path(self.location.uri.text.as_str())
        };
        let ghost given = path;
        let shown = self.choose_label_path(current, path);
        assert(shown == symbol_path(*self, *current, given));
        shown
    }

    /// The label of the symbol, where the path that it shows is `relative_path`.
    pub fn label(&self, current: &Option<Uri>, relative_path: Option<String>) -> (label: Spans)
        ensures
            label@ == raw_line(symbol_text(*self, *current, text_view(relative_path))),
    {
        if names_current(current, &self.location.uri) {
            raw(self.name.clone())
        } else {
            let mut text = self.name.clone();
            text.append(" (");
            match relative_path {
                Some(path) => text.append(path.as_str()),
                None => text.append(self.location.uri.text.as_str()),
            }
            text.append(")");
            raw(text)
        }
    }
}

/// The styles of the four severities.
#[derive(Debug, Clone, Copy, PartialEq, Eq, Structural)]
pub struct DiagnosticStyles {
    pub hint: Style,
    pub info: Style,
    pub warning: Style,
    pub error: Style,
}

/// Whether the list of diagnostics says which file each is in.
#[derive(Debug, Clone, Copy, PartialEq, Eq, Structural)]
pub enum DiagnosticsFormat {
    ShowSourcePath,
    HideSourcePath,
}

/// A diagnostic in a list.
#[derive(Debug, PartialEq, Eq)]
pub struct PickerDiagnostic {
    pub url: Uri,
    pub diag: Diagnostic,
    pub offset_encoding: OffsetEncoding,
}

/// The style of a severity. What has none, or an unknown one, is plain.
pub open spec fn severity_style(
    styles: DiagnosticStyles,
    severity: Option<DiagnosticSeverity>,
) -> Style {
    match severity {
        Some(DiagnosticSeverity::Hint) => styles.hint,
        Some(DiagnosticSeverity::Information) => styles.info,
        Some(DiagnosticSeverity::Warning) => styles.warning,
        Some(DiagnosticSeverity::Error) => styles.error,
        _ => plain_style(),
    }
}

/// The code of a diagnostic in brackets, or nothing where it has none.
pub open spec fn code_text(code: Option<NumberOrString>) -> Seq<char> {
    match code {
        None => Seq::empty(),
        Some(NumberOrString::Number(number)) => " ("@ + signed_decimal(number as int) + ")"@,
        Some(NumberOrString::String(string)) => " ("@ + string@ + ")"@,
    }
}

/// The label of a diagnostic: its file where that is asked for, its message and
/// its code. The message and the code have the style of the severity, without a
/// background, which would distract in a list.
pub open spec fn diagnostic_line(
    diag: Diagnostic,
    styles: DiagnosticStyles,
    format: DiagnosticsFormat,
    truncated_path: Seq<char>,
) -> Seq<SpanView> {
    let style = Style { bg: None, ..severity_style(styles, diag.severity) };
    seq![
        SpanView {
            content: match format {
                DiagnosticsFormat::HideSourcePath => Seq::empty(),
                DiagnosticsFormat::ShowSourcePath => truncated_path + ": "@,
            },
            style: plain_style(),
        },
        SpanView { content: diag.message@, style },
        SpanView { content: code_text(diag.code), style },
    ]
}

impl PickerDiagnostic {
    /// The path whose truncated form the label shows: that of the address, where
    /// files are shown at all.
    pub fn source_path(&self, format: DiagnosticsFormat) -> (path: Option<String>)
        ensures
            text_view(path) == match format {
                DiagnosticsFormat::HideSourcePath => None::<Seq<char>>,
                DiagnosticsFormat::ShowSourcePath => url_path_of(self.url.text@),
            },
    {
        match format {
            DiagnosticsFormat::HideSourcePath => None,
            DiagnosticsFormat::ShowSourcePath => url_path(self.url.text.as_str()),
        }
    }

    /// The label of the diagnostic, where the path that it shows is
    /// `truncated_path`.
    pub fn label(
        &self,
        styles: &DiagnosticStyles,
        format: DiagnosticsFormat,
        truncated_path: &str,
    ) -> (label: Spans)
        ensures
            label@ == diagnostic_line(self.diag, *styles, format, truncated_path@),
    {
        let mut style = match self.diag.severity {
            Some(DiagnosticSeverity::Hint) => styles.hint,
            Some(DiagnosticSeverity::Information) => styles.info,
            Some(DiagnosticSeverity::Warning) => styles.warning,
            Some(DiagnosticSeverity::Error) => styles.error,
            _ => Style::default(),
        };
        style.bg = None;
        let code = match &self.diag.code {
            Some(code) => {
                let mut text = " (".to_owned();
                match code {
                    NumberOrString::Number(number) => {
                        text.append(signed_to_text(*number).as_str());
                    },
                    NumberOrString::String(string) => text.append(string.as_str()),
                }
                text.append(")");
                text
            },
            None => String::new(),
        };
        let path = match format {
            DiagnosticsFormat::HideSourcePath => String::new(),
            DiagnosticsFormat::ShowSourcePath => {
                let mut text = truncated_path.to_owned();
                text.append(": ");
                text
            },
        };
        let mut spans: Vec<Span> = Vec::new();
        spans.push(Span { content: path, style: Style::default() });
        spans.push(Span { content: self.diag.message.clone(), style });
        spans.push(Span { content: code, style });
        let label = Spans(spans);
        assert(label@ =~= diagnostic_line(self.diag, *styles, format, truncated_path@));
        label
    }
}

impl PickerDiagnostic {
    /// The file and the lines of the diagnostic, or nothing where its address is
    /// no path.
    pub fn preview(&self) -> (found: Option<FileLocation>)
        ensures
            exists|path: Option<PathBuf>|
                {
                    &&& found == #[trigger] place_of(path, self.diag.range)
                    &&& gives_path(self.url.text@, path)
                },
    {
        file_location(&self.url, self.diag.range)
    }
}

impl CodeActionOrCommand {
    /// The title of the action or the command.
    pub open spec fn title(self) -> Seq<char> {
        match self {
            CodeActionOrCommand::CodeAction(action) => action.title@,
            CodeActionOrCommand::Command(command) => command.title@,
        }
    }

    /// The label of the action or the command: its title.
    pub fn label(&self) -> (label: Spans)
        ensures
            label@ == raw_line(self.title()),
    {
        match self {
            CodeActionOrCommand::CodeAction(action) => raw(action.title.clone()),
            CodeActionOrCommand::Command(command) => raw(command.title.clone()),
        }
    }
}

/// A file with the lines to show of it, the last one included.
#[derive(Debug, PartialEq, Eq)]
pub struct FileLocation {
    pub path: PathBuf,
    pub lines: Option<(usize, usize)>,
}

/// The lines of `range` in the file at `path`.
pub open spec fn lines_of(path: PathBuf, range: LspRange) -> FileLocation {
    FileLocation { path, lines: Some((range.start.line as usize, range.end.line as usize)) }
}

/// The lines of `range` in the file at `path`.
pub fn file_lines(path: PathBuf, range: LspRange) -> (place: FileLocation)
    ensures
        place == lines_of(path, range),
{
    FileLocation { path, lines: Some((range.start.line as usize, range.end.line as usize)) }
}

/// The file and the lines of a stretch of a document whose address gives `path`:
/// nothing where that is no path, and else the lines of the stretch.
pub open spec fn place_of(path: Option<PathBuf>, range: LspRange) -> Option<FileLocation> {
    match path {
        Some(path) => Some(lines_of(path, range)),
        None => None,
    }
}

/// The file and the lines of a stretch of a document whose address gave `path`.
pub fn file_place(path: Option<PathBuf>, range: LspRange) -> (found: Option<FileLocation>)
    ensures
        found == place_of(path, range),
{
    match path {
        Some(path) => Some(file_lines(path, range)),
        None => None,
    }
}

/// The file and the lines of a stretch of the document at `uri`, or nothing
/// where that address is no path.
pub fn file_location(uri: &Uri, range: LspRange) -> (found: Option<FileLocation>)
    ensures
        exists|path: Option<PathBuf>|
            {
                &&& found == #[trigger] place_of(path, range)
                &&& gives_path(uri.text@, path)
            },
{
    let path = url_to_file_path(uri.text.as_str());
    let ghost given = path;
    let found = file_place(path, range);
    assert(found == place_of(given, range));
    found
}

/// The file and the lines of a location, or nothing where its address is no
/// path.
pub fn location_to_file_location(location: &Location) -> (found: Option<FileLocation>)
    ensures
        exists|path: Option<PathBuf>|
            {
                &&& found == #[trigger] place_of(path, location.range)
                &&& gives_path(location.uri.text@, path)
            },
{
    file_location(&location.uri, location.range)
}

/// No label of a diagnostic has a background.
pub proof fn law_no_background_in_diagnostics(
    diag: Diagnostic,
    styles: DiagnosticStyles,
    format: DiagnosticsFormat,
    truncated_path: Seq<char>,
)
    ensures
        forall|i: int|
            0 <= i < diagnostic_line(diag, styles, format, truncated_path).len() ==> (
            #[trigger] diagnostic_line(diag, styles, format, truncated_path)[i]).style.bg is None,
{
}

/// The view of a line shows every piece, in order, with its text and its style.
pub proof fn law_line_view_is_faithful(line: Spans)
    ensures
        line@.len() == line.0@.len(),
        forall|i: int|
            0 <= i < line.0@.len() ==> (#[trigger] line@[i]).content == line.0@[i].content@
                && line@[i].style == line.0@[i].style,
{
}

/// A raw line is one piece of text, in a style that changes nothing.
pub proof fn law_raw_line_is_plain(content: Seq<char>)
    ensures
        raw_line(content).len() == 1,
        raw_line(content)[0].content == content,
        raw_line(content)[0].style.fg is None,
        raw_line(content)[0].style.bg is None,
        raw_line(content)[0].style.underline_color is None,
        raw_line(content)[0].style.underline_style is None,
        raw_line(content)[0].style.add_modifier == 0,
        raw_line(content)[0].style.sub_modifier == 0,
{
}

/// The label of a location is its file, or its address where no file is shown, a
/// colon, and the line in which it begins.
pub proof fn law_location_is_named(location: Location, file: Seq<char>)
    ensures
        location_text(location, Some(file)) == file + ":"@ + decimal(
            location.range.start.line as nat,
        ),
        location_text(location, None) == location.uri.text@ + ":"@ + decimal(
            location.range.start.line as nat,
        ),
{
}

/// The label of a location shows the path that its own address gives: what is left
/// of it in the working directory, or the whole path outside of it. An address that
/// is no `file` URL, or gives no path, is shown as it is.
pub proof fn law_location_shows_its_own_path(
    label: Seq<SpanView>,
    location: Location,
    path: Option<PathBuf>,
    rest: Option<PathBuf>,
)
    requires
        right_location_label(label, location, path, rest),
    ensures
        url_scheme_of(location.uri.text@) == Some("file"@) && path is Some && rest is Some
            ==> exists|file: Seq<char>|
            {
                &&& #[trigger] may_show(rest->0, file)
                &&& label == raw_line(file + ":"@ + decimal(location.range.start.line as nat))
            },
        url_scheme_of(location.uri.text@) == Some("file"@) && path is Some && rest is None
            ==> exists|file: Seq<char>|
            {
                &&& #[trigger] may_show(path->0, file)
                &&& label == raw_line(file + ":"@ + decimal(location.range.start.line as nat))
            },
        url_scheme_of(location.uri.text@) != Some("file"@) || path is None ==> label == raw_line(
            location.uri.text@ + ":"@ + decimal(location.range.start.line as nat),
        ),
{
    let file = choose|file: Option<Seq<char>>|
        {
            &&& label == raw_line(#[trigger] location_text(location, file))
            &&& match shown_path(url_scheme_of(location.uri.text@), path, rest) {
                Some(shown) => file matches Some(file) && may_show(shown, file),
                None => file is None,
            }
        };
    if url_scheme_of(location.uri.text@) == Some("file"@) && path is Some {
        if rest is Some {
            assert(may_show(rest->0, file->0));
        } else {
            assert(may_show(path->0, file->0));
        }
    }
}

/// A path is shown only for a `file` URL that gives one: what is left of it in the
/// working directory where anything is, and else all of it.
pub proof fn law_path_that_is_shown(
    scheme: Option<Seq<char>>,
    path: PathBuf,
    rest: Option<PathBuf>,
    whole: Option<PathBuf>,
    cwdir: PathBuf,
)
    ensures
        scheme != Some("file"@) ==> shown_path(scheme, whole, rest) is None,
        shown_path(scheme, None, rest) is None,
        scheme == Some("file"@) ==> shown_path(scheme, Some(path), rest) == (match rest {
            Some(rest) => Some(rest),
            None => Some(path),
        }),
        leaves_of(Some(path), cwdir, rest) <==> may_leave(path, cwdir, rest),
        leaves_of(None, cwdir, rest) <==> rest is None,
{
}

/// The label of a symbol is its name alone in the document that has the focus, and
/// elsewhere its name followed by its file, or its address, in brackets. Only
/// elsewhere does its path matter.
pub proof fn law_symbol_is_named(
    info: SymbolInformation,
    current: Option<Uri>,
    relative_path: Option<Seq<char>>,
    path: Option<PathBuf>,
)
    ensures
        current is Some && current->0.text@ == info.location.uri.text@ ==> {
            &&& symbol_text(info, current, relative_path) == info.name@
            &&& symbol_path(info, current, path) is None
        },
        current is None || current->0.text@ != info.location.uri.text@ ==> {
            &&& symbol_text(info, current, relative_path) == info.name@ + " ("@ + (
            match relative_path {
                Some(shown) => shown,
                None => info.location.uri.text@,
            }) + ")"@
            &&& symbol_path(info, current, path) == path
        },
{
}

/// The label of a diagnostic has three pieces: its file with a colon, where files
/// are shown; its message; and its code in brackets, where it has one. The message
/// and the code have the style that the theme gives to its severity, but for the
/// background, and are plain where it has no severity that the theme knows.
pub proof fn law_diagnostic_is_named(
    diag: Diagnostic,
    styles: DiagnosticStyles,
    truncated_path: Seq<char>,
    format: DiagnosticsFormat,
)
    ensures
        ({
            let line = diagnostic_line(diag, styles, format, truncated_path);
            let themed = match diag.severity {
                Some(DiagnosticSeverity::Hint) => Some(styles.hint),
                Some(DiagnosticSeverity::Information) => Some(styles.info),
                Some(DiagnosticSeverity::Warning) => Some(styles.warning),
                Some(DiagnosticSeverity::Error) => Some(styles.error),
                Some(DiagnosticSeverity::Other(_)) => None,
                None => None,
            };
            &&& line.len() == 3
            &&& format is HideSourcePath ==> line[0].content.len() == 0
            &&& format is ShowSourcePath ==> line[0].content == truncated_path + ": "@
            &&& line[0].style.fg is None && line[0].style.bg is None
            &&& line[1].content == diag.message@
            &&& match diag.code {
                None => line[2].content.len() == 0,
                Some(NumberOrString::Number(number)) => line[2].content == " ("@ + signed_decimal(
                    number as int,
                ) + ")"@,
                Some(NumberOrString::String(code)) => line[2].content == " ("@ + code@ + ")"@,
            }
            &&& line[2].style == line[1].style
            &&& line[1].style.bg is None
            &&& match themed {
                Some(style) => {
                    &&& line[1].style.fg == style.fg
                    &&& line[1].style.underline_color == style.underline_color
                    &&& line[1].style.underline_style == style.underline_style
                    &&& line[1].style.add_modifier == style.add_modifier
                    &&& line[1].style.sub_modifier == style.sub_modifier
                },
                None => {
                    &&& line[1].style.fg is None
                    &&& line[1].style.underline_color is None
                    &&& line[1].style.underline_style is None
                    &&& line[1].style.add_modifier == 0
                    &&& line[1].style.sub_modifier == 0
                },
            }
        }),
{
}

/// An action is named by its title, and so is a command.
pub proof fn law_action_is_named_by_its_title(choice: CodeActionOrCommand)
    ensures
        match choice {
            CodeActionOrCommand::CodeAction(action) => choice.title() == action.title@,
            CodeActionOrCommand::Command(command) => choice.title() == command.title@,
        },
{
}

/// What is shown beside a place is its file, from the line in which it begins to
/// the line in which it ends, and nothing where its address gives no path.
pub proof fn law_preview_shows_the_place(path: PathBuf, range: LspRange)
    ensures
        place_of(None, range) is None,
        place_of(Some(path), range) is Some,
        place_of(Some(path), range)->0.path == path,
        place_of(Some(path), range)->0.lines is Some,
        (place_of(Some(path), range)->0.lines->0).0 == range.start.line,
        (place_of(Some(path), range)->0.lines->0).1 == range.end.line,
{
}

} // verus!
