//! Jumps to a place in a document, which may have to be opened first.

use crate::diagnostics::DiagnosticPicker;
use crate::edits::{no_document_error, no_document_message, no_path_error, no_path_message};
use crate::foreign::{gives_path, may_give_path, url_debug, url_debug_of, url_to_file_path};
use crate::labels::PickerDiagnostic;
use crate::protocol::{
    is_current, names_current, Location, LspRange, OffsetEncoding, Position, SymbolInformation, Uri,
};
use crate::selection::Range;
use crate::symbols::SymbolPicker;
use std::path::PathBuf;
use vstd::prelude::*;
use vstd::string::StringExecFns;

verus! {

/// Where an opened document is shown.
#[derive(Debug, Clone, Copy, PartialEq, Eq, Structural)]
pub enum Action {
    Load,
    Replace,
    HorizontalSplit,
    VerticalSplit,
}

/// What a jump leads to in the document.
#[derive(Debug, Clone, Copy, PartialEq, Eq, Structural)]
pub enum Goal {
    /// Put the cursor at the place.
    Point(Position),
    /// Select the stretch, with the cursor at its start.
    Stretch(LspRange),
}

/// What is said where the document does not open.
#[derive(Debug, PartialEq, Eq)]
pub enum Complaint {
    /// An error about a path, with the address as it prints for debugging.
    Path { printed: String },
    /// An error about a document.
    Document { uri: Uri },
    /// Nothing: the program cannot go on.
    Fatal,
}

/// What a `Complaint` holds.
pub enum ComplaintView {
    Path { printed: Seq<char> },
    Document { uri: Uri },
    Fatal,
}

impl View for Complaint {
    type V = ComplaintView;

    open spec fn view(&self) -> ComplaintView {
        match *self {
            Complaint::Path { printed } => ComplaintView::Path { printed: printed@ },
            Complaint::Document { uri } => ComplaintView::Document { uri },
            Complaint::Fatal => ComplaintView::Fatal,
        }
    }
}

/// A jump that is being made.
#[derive(Debug, PartialEq, Eq)]
pub enum Jump {
    /// The document is being opened.
    Opening { complaint: Complaint, goal: Goal, offset_encoding: OffsetEncoding },
    /// The goal is being looked up in the text.
    Resolving,
    Done,
}

/// How far a `Jump` has come.
pub enum JumpView {
    Opening { complaint: ComplaintView, goal: Goal, offset_encoding: OffsetEncoding },
    Resolving,
    Done,
}

impl View for Jump {
    type V = JumpView;

    open spec fn view(&self) -> JumpView {
        match *self {
            Jump::Opening { complaint, goal, offset_encoding } => {
                JumpView::Opening { complaint: complaint@, goal, offset_encoding }
            },
            Jump::Resolving => JumpView::Resolving,
            Jump::Done => JumpView::Done,
        }
    }
}

/// Something that the program has to do for a jump.
#[derive(Debug, PartialEq, Eq)]
pub enum Effect {
    /// Remember the present place, to come back to it.
    PushJump,
    SetError(String),
    /// Open the file, and hand back the outcome.
    Open { path: PathBuf, action: Action },
    /// Look the goal up in the text of the document that has the focus, and hand
    /// back what it is there.
    Resolve { goal: Goal, offset_encoding: OffsetEncoding },
    /// Make this the only selection.
    Select(Range),
    /// Scroll so that the cursor is in the middle.
    AlignCenter,
}

/// What an `Effect` asks for.
pub enum EffectView {
    PushJump,
    SetError(Seq<char>),
    Open { path: PathBuf, action: Action },
    Resolve { goal: Goal, offset_encoding: OffsetEncoding },
    Select(Range),
    AlignCenter,
}

impl View for Effect {
    type V = EffectView;

    open spec fn view(&self) -> EffectView {
        match *self {
            Effect::PushJump => EffectView::PushJump,
            Effect::SetError(message) => EffectView::SetError(message@),
            Effect::Open { path, action } => EffectView::Open { path, action },
            Effect::Resolve { goal, offset_encoding } => {
                EffectView::Resolve { goal, offset_encoding }
            },
            Effect::Select(range) => EffectView::Select(range),
            Effect::AlignCenter => EffectView::AlignCenter,
        }
    }
}

/// What some effects ask for, in order.
pub open spec fn effect_views(effects: Seq<Effect>) -> Seq<EffectView> {
    effects.map_values(|effect: Effect| effect@)
}

/// Why a document did not open, as it prints for users and for debugging.
#[derive(Debug, PartialEq, Eq)]
pub struct OpenError {
    pub display: String,
    pub debug: String,
}

/// What is found in the text where a goal is looked up.
#[derive(Debug, Clone, Copy, PartialEq, Eq, Structural)]
pub enum Resolved {
    Point(usize),
    Stretch(Range),
}

/// The message for a path that did not open: its address, and the reason.
pub open spec fn open_failed_message(printed: Seq<char>, reason: Seq<char>) -> Seq<char> {
    "failed to open path: "@ + printed + ": "@ + reason
}

/// The message about a document that did not open.
pub open spec fn complaint_message(complaint: ComplaintView, error: OpenError) -> Seq<char> {
    match complaint {
        ComplaintView::Path { printed } => open_failed_message(printed, error.debug@),
        ComplaintView::Document { uri } => no_document_message(uri, error.display@),
        ComplaintView::Fatal => Seq::empty(),
    }
}

/// The jump and the effects once the document was opened or not.
pub open spec fn opened_step(jump: JumpView, outcome: Result<(), OpenError>) -> (
    JumpView,
    Seq<EffectView>,
) {
    match outcome {
        Ok(_) => (
            JumpView::Resolving,
            seq![
                EffectView::Resolve {
                    goal: jump->goal,
                    offset_encoding: jump->offset_encoding,
                },
            ],
        ),
        Err(error) => (
            JumpView::Done,
            seq![EffectView::SetError(complaint_message(jump->complaint, error))],
        ),
    }
}

/// The selection of what was found: a place as it is, and a stretch flipped, so
/// that the cursor is at its start.
pub open spec fn selection_of(resolved: Resolved) -> Range {
    match resolved {
        Resolved::Point(pos) => Range { anchor: pos, head: pos },
        Resolved::Stretch(range) => range.flipped(),
    }
}

/// The effects once the goal was looked up.
pub open spec fn resolved_effects(resolved: Option<Resolved>) -> Seq<EffectView> {
    match resolved {
        Some(resolved) => seq![EffectView::Select(selection_of(resolved)), EffectView::AlignCenter],
        None => Seq::empty(),
    }
}

impl Jump {
    /// Takes the outcome of opening the document.
    pub fn opened(self, outcome: Result<(), OpenError>) -> (step: (Jump, Vec<Effect>))
        requires
            self is Opening,
            outcome is Err ==> !(self->complaint is Fatal),
        ensures
            (step.0@, effect_views(step.1@)) == opened_step(self@, outcome),
    {
        let mut effects: Vec<Effect> = Vec::new();
        let jump = match self {
            Jump::Opening { complaint, goal, offset_encoding } => match outcome {
                Ok(_) => {
                    effects.push(Effect::Resolve { goal, offset_encoding });
                    Jump::Resolving
                },
                Err(error) => {
                    let message = match complaint {
                        Complaint::Path { printed } => {
                            let mut message = "failed to open path: ".to_owned();
                            message.append(printed.as_str());
                            message.append(": ");
                            message.append(error.debug.as_str());
                            message
                        },
                        Complaint::Document { uri } => no_document_error(
                            &uri,
                            error.display.as_str(),
                        ),
                        Complaint::Fatal => String::new(),
                    };
                    effects.push(Effect::SetError(message));
                    Jump::Done
                },
            },
            other => other,
        };
        assert(effect_views(effects@) =~= opened_step(self@, outcome).1);
        (jump, effects)
    }

    /// Takes what was found in the text where the goal was looked up, if
    /// anything was.
    pub fn resolved(self, resolved: Option<Resolved>) -> (step: (Jump, Vec<Effect>))
        requires
            self is Resolving,
        ensures
            step.0 is Done,
            effect_views(step.1@) == resolved_effects(resolved),
    {
        let mut effects: Vec<Effect> = Vec::new();
        if let Some(resolved) = resolved {
            let range = match resolved {
                Resolved::Point(pos) => Range::point(pos),
                Resolved::Stretch(range) => range.flip(),
            };
            effects.push(Effect::Select(range));
            effects.push(Effect::AlignCenter);
        }
        assert(effect_views(effects@) =~= resolved_effects(resolved));
        (Jump::Done, effects)
    }
}

/// The start of a jump to a location. `found` is what its address gives: the
/// path, and the address as it prints for debugging.
pub open spec fn location_start(
    location: Location,
    offset_encoding: OffsetEncoding,
    action: Action,
    found: Option<(PathBuf, Seq<char>)>,
) -> (JumpView, Seq<EffectView>) {
    match found {
        Some((path, printed)) => (
            JumpView::Opening {
                complaint: ComplaintView::Path { printed },
                goal: Goal::Point(location.range.start),
                offset_encoding,
            },
            seq![EffectView::PushJump, EffectView::Open { path, action }],
        ),
        None => (
            JumpView::Done,
            seq![EffectView::PushJump, EffectView::SetError(no_path_message(location.uri))],
        ),
    }
}

/// The path and the printed address that were found, by their views.
pub open spec fn found_view(found: Option<(PathBuf, String)>) -> Option<(PathBuf, Seq<char>)> {
    match found {
        Some((path, printed)) => Some((path, printed@)),
        None => None,
    }
}

/// The path that was found, without the printed address.
pub open spec fn found_path(found: Option<(PathBuf, Seq<char>)>) -> Option<PathBuf> {
    match found {
        Some((path, printed)) => Some(path),
        None => None,
    }
}

/// Whether `found` is what the address `text` may give: a path with the address
/// as it prints for debugging, or nothing.
pub open spec fn gives_location(text: Seq<char>, found: Option<(PathBuf, Seq<char>)>) -> bool {
    &&& gives_path(text, found_path(found))
    &&& found matches Some((path, printed)) ==> url_debug_of(text) == Some(printed)
}

/// Begins a jump to a location, whose address gave `found`.
pub fn begin_location_jump(
    location: &Location,
    offset_encoding: OffsetEncoding,
    action: Action,
    found: Option<(PathBuf, String)>,
) -> (step: (Jump, Vec<Effect>))
    ensures
        (step.0@, effect_views(step.1@)) == location_start(
            *location,
            offset_encoding,
            action,
            found_view(found),
        ),
{
    let mut effects: Vec<Effect> = Vec::new();
    effects.push(Effect::PushJump);
    let jump = match found {
        Some((path, printed)) => {
            effects.push(Effect::Open { path, action });
            Jump::Opening {
                complaint: Complaint::Path { printed },
                goal: Goal::Point(location.range.start),
                offset_encoding,
            }
        },
        None => {
            effects.push(Effect::SetError(no_path_error(&location.uri)));
            Jump::Done
        },
    };
    assert(effect_views(effects@) =~= location_start(
        *location,
        offset_encoding,
        action,
        found_view(found),
    ).1);
    (jump, effects)
}

/// Begins a jump to a location.
pub fn jump_to_location(
    location: &Location,
    offset_encoding: OffsetEncoding,
    action: Action,
) -> (step: (Jump, Vec<Effect>))
    ensures
        exists|found: Option<(PathBuf, Seq<char>)>|
            {
                &&& (step.0@, effect_views(step.1@)) == #[trigger] location_start(
                    *location,
                    offset_encoding,
                    action,
                    found,
                )
                &&& gives_location(location.uri.text@, found)
            },
{
    let found = match url_to_file_path(location.uri.text.as_str()) {
        Some(path) => Some((path, url_debug(location.uri.text.as_str()).unwrap())),
        None => None,
    };
    let ghost given = found_view(found);
    let step = begin_location_jump(location, offset_encoding, action, found);
    assert((step.0@, effect_views(step.1@)) == location_start(
        *location,
        offset_encoding,
        action,
        given,
    ));
    step
}

/// The start of a jump inside the document that has the focus.
pub open spec fn here_start(range: LspRange, offset_encoding: OffsetEncoding) -> (
    JumpView,
    Seq<EffectView>,
) {
    (
        JumpView::Resolving,
        seq![
            EffectView::PushJump,
            EffectView::Resolve { goal: Goal::Stretch(range), offset_encoding },
        ],
    )
}

/// The start of a jump to a stretch of another document.
pub open spec fn there_start(
    path: PathBuf,
    complaint: ComplaintView,
    range: LspRange,
    offset_encoding: OffsetEncoding,
    action: Action,
) -> (JumpView, Seq<EffectView>) {
    (
        JumpView::Opening { complaint, goal: Goal::Stretch(range), offset_encoding },
        seq![EffectView::Open { path, action }],
    )
}

/// Begins a jump inside the document that has the focus.
fn begin_here(range: LspRange, offset_encoding: OffsetEncoding) -> (step: (Jump, Vec<Effect>))
    ensures
        (step.0@, effect_views(step.1@)) == here_start(range, offset_encoding),
{
    let mut effects: Vec<Effect> = Vec::new();
    effects.push(Effect::PushJump);
    effects.push(Effect::Resolve { goal: Goal::Stretch(range), offset_encoding });
    assert(effect_views(effects@) =~= here_start(range, offset_encoding).1);
    (Jump::Resolving, effects)
}

/// Begins a jump to a stretch of another document.
fn begin_there(
    path: PathBuf,
    complaint: Complaint,
    range: LspRange,
    offset_encoding: OffsetEncoding,
    action: Action,
) -> (step: (Jump, Vec<Effect>))
    ensures
        (step.0@, effect_views(step.1@)) == there_start(
            path,
            complaint@,
            range,
            offset_encoding,
            action,
        ),
{
    let mut effects: Vec<Effect> = Vec::new();
    effects.push(Effect::Open { path, action });
    assert(effect_views(effects@) =~= there_start(
        path,
        complaint@,
        range,
        offset_encoding,
        action,
    ).1);
    (Jump::Opening { complaint, goal: Goal::Stretch(range), offset_encoding }, effects)
}

/// The start of a jump to a symbol. `path` is what its address gives, and
/// counts only where the symbol is in another document than `current`.
pub open spec fn symbol_start(
    current: Option<Uri>,
    symbol: SymbolInformation,
    offset_encoding: OffsetEncoding,
    action: Action,
    path: Option<PathBuf>,
) -> (JumpView, Seq<EffectView>) {
    let uri = symbol.location.uri;
    if is_current(current, uri) {
        here_start(symbol.location.range, offset_encoding)
    } else {
        match path {
            Some(path) => there_start(
                path,
                ComplaintView::Document { uri },
                symbol.location.range,
                offset_encoding,
                action,
            ),
            None => (JumpView::Done, seq![EffectView::SetError(no_path_message(uri))]),
        }
    }
}

impl SymbolPicker {
    /// Begins a jump to a symbol of the list, whose address gave `path`.
    pub fn begin_choice(
        &self,
        symbol: &SymbolInformation,
        offset_encoding: OffsetEncoding,
        action: Action,
        path: Option<PathBuf>,
    ) -> (step: (Jump, Vec<Effect>))
        ensures
            (step.0@, effect_views(step.1@)) == symbol_start(
                self.current_path,
                *symbol,
                offset_encoding,
                action,
                path,
            ),
    {
        if names_current(&self.current_path, &symbol.location.uri) {
            return begin_here(symbol.location.range, offset_encoding);
        }
        match path {
            Some(path) => begin_there(
                path,
                Complaint::Document { uri: symbol.location.uri.clone() },
                symbol.location.range,
                offset_encoding,
                action,
            ),
            None => {
                let mut effects: Vec<Effect> = Vec::new();
                effects.push(Effect::SetError(no_path_error(&symbol.location.uri)));
                assert(effect_views(effects@) =~= symbol_start(
                    self.current_path,
                    *symbol,
                    offset_encoding,
                    action,
                    path,
                ).1);
                (Jump::Done, effects)
            },
        }
    }

    /// Begins a jump to a symbol of the list.
    pub fn choose_symbol(
        &self,
        symbol: &SymbolInformation,
        offset_encoding: OffsetEncoding,
        action: Action,
    ) -> (step: (Jump, Vec<Effect>))
        ensures
            exists|path: Option<PathBuf>|
                {
                    &&& (step.0@, effect_views(step.1@)) == #[trigger] symbol_start(
                        self.current_path,
                        *symbol,
                        offset_encoding,
                        action,
                        path,
                    )
                    &&& is_current(self.current_path, symbol.location.uri) || gives_path(
                        symbol.location.uri.text@,
                        path,
                    )
                },
    {
        let path = if names_current(&self.current_path, &symbol.location.uri) {
            None
        } else {
            url_to_file_path(symbol.location.uri.text.as_str())
        };
        let ghost given = path;
        let step = self.begin_choice(symbol, offset_encoding, action, path);
        assert((step.0@, effect_views(step.1@)) == symbol_start(
            self.current_path,
            *symbol,
            offset_encoding,
            action,
            given,
        ));
        step
    }
}

/// The start of a jump to a diagnostic. `path` is what its address gives, and
/// counts only where the diagnostic is in another document than `current`.
/// Nothing comes back where there is no path to open.
pub open spec fn diagnostic_start(
    current: Option<Uri>,
    item: PickerDiagnostic,
    action: Action,
    path: Option<PathBuf>,
) -> Option<(JumpView, Seq<EffectView>)> {
    if is_current(current, item.url) {
        Some(here_start(item.diag.range, item.offset_encoding))
    } else {
        match path {
            Some(path) => Some(
                there_start(
                    path,
                    ComplaintView::Fatal,
                    item.diag.range,
                    item.offset_encoding,
                    action,
                ),
            ),
            None => None,
        }
    }
}

/// A jump with its effects, by their views.
pub open spec fn step_view(step: Option<(Jump, Vec<Effect>)>) -> Option<(JumpView, Seq<EffectView>)> {
    match step {
        Some(step) => Some((step.0@, effect_views(step.1@))),
        None => None,
    }
}

impl DiagnosticPicker {
    /// Begins a jump to a diagnostic of the list, whose address gave `path`.
    pub fn begin_choice(
        &self,
        item: &PickerDiagnostic,
        action: Action,
        path: Option<PathBuf>,
    ) -> (step: Option<(Jump, Vec<Effect>)>)
        ensures
            step_view(step) == diagnostic_start(self.current_path, *item, action, path),
    {
        if names_current(&self.current_path, &item.url) {
            return Some(begin_here(item.diag.range, item.offset_encoding));
        }
        match path {
            Some(path) => Some(
                begin_there(
                    path,
                    Complaint::Fatal,
                    item.diag.range,
                    item.offset_encoding,
                    action,
                ),
            ),
            None => None,
        }
    }

    /// Begins a jump to a diagnostic of the list. Nothing comes back where its
    /// address is no path.
    pub fn choose_diagnostic(&self, item: &PickerDiagnostic, action: Action) -> (step: Option<
        (Jump, Vec<Effect>),
    >)
        ensures
            exists|path: Option<PathBuf>|
                {
                    &&& step_view(step) == #[trigger] diagnostic_start(
                        self.current_path,
                        *item,
                        action,
                        path,
                    )
                    &&& is_current(self.current_path, item.url) || gives_path(item.url.text@, path)
                },
    {
        let path = if names_current(&self.current_path, &item.url) {
            None
        } else {
            url_to_file_path(item.url.text.as_str())
        };
        let ghost given = path;
        let step = self.begin_choice(item, action, path);
        assert(step_view(step) == diagnostic_start(self.current_path, *item, action, given));
        step
    }
}

/// A jump to a stretch that is found in the text puts the cursor at its start,
/// selects exactly that stretch, and scrolls to it.
pub proof fn law_cursor_at_start_of_stretch(range: Range)
    requires
        range.anchor <= range.head,
    ensures
        resolved_effects(Some(Resolved::Stretch(range))).len() == 2,
        resolved_effects(Some(Resolved::Stretch(range)))[0] == EffectView::Select(
            selection_of(Resolved::Stretch(range)),
        ),
        selection_of(Resolved::Stretch(range)).head == range.anchor,
        selection_of(Resolved::Stretch(range)).start() == range.start(),
        selection_of(Resolved::Stretch(range)).end() == range.end(),
{
}

/// In the document that has the focus, a jump to a symbol or a diagnostic opens
/// nothing, and the present place is remembered.
pub proof fn law_no_opening_in_current_document(
    current: Option<Uri>,
    symbol: SymbolInformation,
    item: PickerDiagnostic,
    offset_encoding: OffsetEncoding,
    action: Action,
    path: Option<PathBuf>,
)
    ensures
        is_current(current, symbol.location.uri) ==> {
            let effects = symbol_start(current, symbol, offset_encoding, action, path).1;
            &&& effects[0] is PushJump
            &&& forall|i: int| 0 <= i < effects.len() ==> !(#[trigger] effects[i] is Open)
        },
        is_current(current, item.url) ==> {
            let start = diagnostic_start(current, item, action, path);
            &&& start is Some
            &&& (start->0).1[0] is PushJump
            &&& forall|i: int|
                0 <= i < (start->0).1.len() ==> !(#[trigger] (start->0).1[i] is Open)
        },
{
}

/// Whatever the answers are, a jump ends: it is done after at most one opening
/// and one look into the text, and a failed opening leads to no selection.
pub proof fn law_jump_ends(jump: JumpView, outcome: Result<(), OpenError>)
    requires
        jump is Opening,
    ensures
        opened_step(jump, outcome).0 is Resolving || opened_step(jump, outcome).0 is Done,
        outcome is Err ==> opened_step(jump, outcome).0 is Done && opened_step(
            jump,
            outcome,
        ).1.len() == 1 && opened_step(jump, outcome).1[0] is SetError,
{
}

/// The view of effects shows everything that they ask for, in order.
pub proof fn law_effect_view_is_faithful(effects: Seq<Effect>)
    ensures
        effect_views(effects).len() == effects.len(),
        forall|i: int|
            0 <= i < effects.len() ==> (match #[trigger] effects[i] {
                Effect::PushJump => effect_views(effects)[i] is PushJump,
                Effect::SetError(message) => effect_views(effects)[i] == EffectView::SetError(
                    message@,
                ),
                Effect::Open { path, action } => effect_views(effects)[i] == (EffectView::Open {
                    path,
                    action,
                }),
                Effect::Resolve { goal, offset_encoding } => effect_views(effects)[i] == (
                EffectView::Resolve { goal, offset_encoding }),
                Effect::Select(range) => effect_views(effects)[i] == EffectView::Select(range),
                Effect::AlignCenter => effect_views(effects)[i] is AlignCenter,
            }),
{
}

/// The view of a jump shows how far it has come, and everything that it holds.
pub proof fn law_jump_view_is_faithful(jump: Jump)
    ensures
        match jump {
            Jump::Opening { complaint, goal, offset_encoding } => {
                &&& jump@ is Opening
                &&& jump@->goal == goal
                &&& jump@->offset_encoding == offset_encoding
                &&& match complaint {
                    Complaint::Path { printed } => jump@->complaint == (ComplaintView::Path {
                        printed: printed@,
                    }),
                    Complaint::Document { uri } => jump@->complaint == (ComplaintView::Document {
                        uri,
                    }),
                    Complaint::Fatal => jump@->complaint is Fatal,
                }
            },
            Jump::Resolving => jump@ is Resolving,
            Jump::Done => jump@ is Done,
        },
{
}

/// The view of a first step shows the jump and its effects.
pub proof fn law_step_view_is_faithful(step: Option<(Jump, Vec<Effect>)>, found: Option<(PathBuf, String)>)
    ensures
        step is None <==> step_view(step) is None,
        step matches Some((jump, effects)) ==> step_view(step) == Some(
            (jump@, effect_views(effects@)),
        ),
        found is None <==> found_view(found) is None,
        found matches Some((path, printed)) ==> found_view(found) == Some((path, printed@)),
{
}

/// Once the document is open, the goal of the jump is looked up in it, in the
/// encoding of the jump, and nothing else is done.
pub proof fn law_goal_is_looked_up(jump: JumpView)
    requires
        jump is Opening,
    ensures
        ({
            let (next, effects) = opened_step(jump, Ok(()));
            &&& next is Resolving
            &&& effects.len() == 1
            &&& effects[0] is Resolve
            &&& effects[0]->Resolve_goal == jump->goal
            &&& effects[0]->Resolve_offset_encoding == jump->offset_encoding
        }),
{
}

/// A document that does not open ends the jump with one error, which names the
/// address and the reason.
pub proof fn law_failed_opening_is_reported(
    goal: Goal,
    offset_encoding: OffsetEncoding,
    printed: Seq<char>,
    uri: Uri,
    error: OpenError,
)
    ensures
        ({
            let complaint = ComplaintView::Path { printed };
            let jump = JumpView::Opening { complaint, goal, offset_encoding };
            let (next, effects) = opened_step(jump, Err(error));
            &&& next is Done
            &&& effects.len() == 1
            &&& effects[0] == EffectView::SetError(
                "failed to open path: "@ + printed + ": "@ + error.debug@,
            )
        }),
        ({
            let complaint = ComplaintView::Document { uri };
            let jump = JumpView::Opening { complaint, goal, offset_encoding };
            let (next, effects) = opened_step(jump, Err(error));
            &&& next is Done
            &&& effects.len() == 1
            &&& effects[0] == EffectView::SetError(
                "failed to open document: "@ + uri.text@ + ": "@ + error.display@,
            )
        }),
{
}

/// What is found becomes the only selection, and the view scrolls to it: a place
/// as an empty selection there, and a stretch from end to start. What is not found
/// changes nothing.
pub proof fn law_found_goal_is_selected(pos: usize, range: Range)
    ensures
        resolved_effects(None).len() == 0,
        resolved_effects(Some(Resolved::Point(pos))).len() == 2,
        resolved_effects(Some(Resolved::Point(pos)))[0] == EffectView::Select(
            Range { anchor: pos, head: pos },
        ),
        resolved_effects(Some(Resolved::Point(pos)))[1] is AlignCenter,
        resolved_effects(Some(Resolved::Stretch(range))).len() == 2,
        resolved_effects(Some(Resolved::Stretch(range)))[0] == EffectView::Select(
            Range { anchor: range.head, head: range.anchor },
        ),
        resolved_effects(Some(Resolved::Stretch(range)))[1] is AlignCenter,
{
}

/// A jump to a location remembers the present place, opens the path of the
/// location as it is told, and leads to where the location begins. An address that
/// is no path is reported, and opens nothing.
pub proof fn law_location_is_reached(
    location: Location,
    offset_encoding: OffsetEncoding,
    action: Action,
    path: PathBuf,
    printed: Seq<char>,
)
    ensures
        ({
            let (jump, effects) = location_start(
                location,
                offset_encoding,
                action,
                Some((path, printed)),
            );
            &&& effects.len() == 2
            &&& effects[0] is PushJump
            &&& effects[1] == (EffectView::Open { path, action })
            &&& jump is Opening
            &&& jump->goal == Goal::Point(location.range.start)
            &&& jump->offset_encoding == offset_encoding
            &&& jump->complaint == (ComplaintView::Path { printed })
        }),
        ({
            let (jump, effects) = location_start(location, offset_encoding, action, None);
            &&& effects.len() == 2
            &&& effects[0] is PushJump
            &&& effects[1] == EffectView::SetError(
                "unable to convert URI to filepath: "@ + location.uri.text@,
            )
            &&& jump is Done
        }),
{
}

/// A jump to a symbol leads to the stretch of the symbol, in the encoding of its
/// server. In the document that has the focus, the present place is remembered and
/// the stretch is looked up at once; any other document is opened as the jump is
/// told; and an address that is no path is reported.
pub proof fn law_symbol_is_reached(
    current: Option<Uri>,
    symbol: SymbolInformation,
    offset_encoding: OffsetEncoding,
    action: Action,
    path: PathBuf,
    given: Option<PathBuf>,
)
    ensures
        current is Some && current->0.text@ == symbol.location.uri.text@ ==> {
            let (jump, effects) = symbol_start(current, symbol, offset_encoding, action, given);
            &&& jump is Resolving
            &&& effects.len() == 2
            &&& effects[0] is PushJump
            &&& effects[1] == (EffectView::Resolve {
                goal: Goal::Stretch(symbol.location.range),
                offset_encoding,
            })
        },
        current is None || current->0.text@ != symbol.location.uri.text@ ==> {
            let (jump, effects) = symbol_start(
                current,
                symbol,
                offset_encoding,
                action,
                Some(path),
            );
            &&& jump is Opening
            &&& jump->goal == Goal::Stretch(symbol.location.range)
            &&& jump->offset_encoding == offset_encoding
            &&& jump->complaint == (ComplaintView::Document { uri: symbol.location.uri })
            &&& effects.len() == 1
            &&& effects[0] == (EffectView::Open { path, action })
        },
        current is None || current->0.text@ != symbol.location.uri.text@ ==> {
            let (jump, effects) = symbol_start(current, symbol, offset_encoding, action, None);
            &&& jump is Done
            &&& effects.len() == 1
            &&& effects[0] == EffectView::SetError(
                "unable to convert URI to filepath: "@ + symbol.location.uri.text@,
            )
        },
{
}

/// A jump to a diagnostic leads to the stretch of the diagnostic, in the encoding
/// of its server, as a jump to a symbol does. There is no jump where another
/// document has no path, and a document that does not open is fatal.
pub proof fn law_diagnostic_is_reached(
    current: Option<Uri>,
    item: PickerDiagnostic,
    action: Action,
    path: PathBuf,
    given: Option<PathBuf>,
)
    ensures
        current is Some && current->0.text@ == item.url.text@ ==> {
            let start = diagnostic_start(current, item, action, given);
            &&& start is Some
            &&& (start->0).0 is Resolving
            &&& (start->0).1.len() == 2
            &&& (start->0).1[0] is PushJump
            &&& (start->0).1[1] == (EffectView::Resolve {
                goal: Goal::Stretch(item.diag.range),
                offset_encoding: item.offset_encoding,
            })
        },
        current is None || current->0.text@ != item.url.text@ ==> {
            let start = diagnostic_start(current, item, action, Some(path));
            &&& diagnostic_start(current, item, action, None) is None
            &&& start is Some
            &&& (start->0).0 is Opening
            &&& (start->0).0->goal == Goal::Stretch(item.diag.range)
            &&& (start->0).0->offset_encoding == item.offset_encoding
            &&& (start->0).0->complaint is Fatal
            &&& (start->0).1.len() == 1
            &&& (start->0).1[0] == (EffectView::Open { path, action })
        },
{
}

/// What a location gives comes from its own address: the path, and the address as
/// it prints for debugging.
pub proof fn law_location_gives_its_own_path(text: Seq<char>, found: Option<(PathBuf, Seq<char>)>)
    requires
        gives_location(text, found),
    ensures
        match found {
            Some((path, printed)) => may_give_path(text, Some(path)) && url_debug_of(text) == Some(
                printed,
            ),
            None => may_give_path(text, None),
        },
{
}

} // verus!
