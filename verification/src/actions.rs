//! Actions that a server offers for the selection, and commands that it runs.

use crate::editor::{
    asked, no_server_message, server_by_id, servers_with, shows, told, Callback, Context,
    DiagnosticSpan, Document, Editor, LanguageServer, LanguageServerFeature, Severity,
};
use crate::edits::{apply_workspace_edit, plan, EditRun, RunView};
use crate::popup::{passing, passing_popup, Popup, PopupId};
use crate::protocol::{
    CodeAction, CodeActionOrCommand, Command, DocumentChanges, OffsetEncoding, WorkspaceEdit,
};
use crate::selection::Range;
use vstd::prelude::*;

verus! {

/// The stretch of a diagnostic.
pub open spec fn span_range(span: DiagnosticSpan) -> Range {
    Range { anchor: span.start, head: span.end }
}

/// Whether `numbers` are those of the diagnostics that overlap `selection`, in
/// order.
pub open spec fn are_overlapping(
    numbers: Seq<usize>,
    diagnostics: Seq<DiagnosticSpan>,
    selection: Range,
) -> bool {
    &&& forall|i: int, j: int|
        0 <= i < j < numbers.len() ==> #[trigger] numbers[i] < #[trigger] numbers[j]
    &&& forall|number: usize| #[trigger]
        numbers.contains(number) <==> number < diagnostics.len() && selection.meets(
            span_range(diagnostics[number as int]),
        )
}

/// The numbers of the diagnostics that overlap `selection`.
pub fn overlapping_diagnostics(diagnostics: &Vec<DiagnosticSpan>, selection: Range) -> (numbers: Vec<
    usize,
>)
    ensures
        are_overlapping(numbers@, diagnostics@, selection),
{
    let mut numbers: Vec<usize> = Vec::new();
    let mut i: usize = 0;
    while i < diagnostics.len()
        invariant
            i <= diagnostics@.len(),
            forall|k: int, l: int|
                0 <= k < l < numbers@.len() ==> #[trigger] numbers@[k] < #[trigger] numbers@[l],
            forall|k: int| 0 <= k < numbers@.len() ==> #[trigger] numbers@[k] < i,
            forall|number: usize| #[trigger]
                numbers@.contains(number) <==> number < i && selection.meets(
                    span_range(diagnostics@[number as int]),
                ),
        decreases diagnostics@.len() - i,
    {
        let span = diagnostics[i];
        let range = Range { anchor: span.start, head: span.end };
        let ghost before = numbers@;
        if selection.overlaps(&range) {
            numbers.push(i);
            proof {
                assert forall|number: usize| #[trigger] numbers@.contains(number) <==> number < i
                    + 1 && selection.meets(span_range(diagnostics@[number as int])) by {
                    if before.contains(number) {
                        let k = choose|k: int| 0 <= k < before.len() && before[k] == number;
                        assert(numbers@[k] == number);
                    }
                    assert(numbers@[before.len() as int] == i);
                    if numbers@.contains(number) && number != i {
                        let k = choose|k: int| 0 <= k < numbers@.len() && numbers@[k] == number;
                        assert(before[k] == number);
                    }
                }
            }
        } else {
            assert(!before.contains(i));
        }
        i += 1;
    }
    numbers
}

/// Whether `callback` asks `server` for actions of all kinds on the selection of
/// `doc`: in the server's own encoding, and with the diagnostics that overlap the
/// selection.
pub open spec fn asks_for_actions(callback: Callback, doc: Document, server: LanguageServer) -> bool {
    callback matches Callback::CodeActions {
        server: id,
        offset_encoding,
        document,
        range,
        diagnostics,
        only,
    } && {
        &&& id == server.id
        &&& offset_encoding == server.offset_encoding
        &&& document == doc.identifier
        &&& range == doc.selection_range.at(server.offset_encoding)
        &&& are_overlapping(diagnostics@, doc.diagnostics@, doc.selection)
        &&& only is None
    }
}

/// Asks every server that has any for actions on the selection.
pub fn code_action(cx: &mut Context)
    ensures
        final(cx).editor == old(cx).editor,
        final(cx).layers == old(cx).layers,
        ({
            let servers = servers_with(
                old(cx).editor.doc.language_servers@,
                LanguageServerFeature::CodeAction,
            );
            let sent = old(cx).callbacks@.len();
            &&& final(cx).callbacks@.len() == sent + servers.len()
            &&& final(cx).callbacks@.take(sent as int) == old(cx).callbacks@
            &&& forall|i: int|
                0 <= i < servers.len() ==> asks_for_actions(
                    final(cx).callbacks@[sent + i],
                    old(cx).editor.doc,
                    #[trigger] servers[i],
                )
        }),
{
    let servers = cx.editor.doc.language_servers_with_feature(LanguageServerFeature::CodeAction);
    let ghost before = *cx;
    let ghost sent = cx.callbacks@.len();
    let mut i: usize = 0;
    assert(cx.callbacks@.take(sent as int) =~= before.callbacks@);
    while i < servers.len()
        invariant
            i <= servers@.len(),
            cx.editor == before.editor,
            cx.layers == before.layers,
            sent == before.callbacks@.len(),
            cx.callbacks@.len() == sent + i,
            cx.callbacks@.take(sent as int) == before.callbacks@,
            forall|k: int|
                0 <= k < i ==> asks_for_actions(
                    cx.callbacks@[sent + k],
                    before.editor.doc,
                    #[trigger] servers@[k],
                ),
        decreases servers@.len() - i,
    {
        let server = servers[i];
        let document = cx.editor.doc.identifier.clone();
        let range = *cx.editor.doc.selection_range.get(server.offset_encoding);
        let diagnostics = overlapping_diagnostics(
            &cx.editor.doc.diagnostics,
            cx.editor.doc.selection,
        );
        let ghost earlier = cx.callbacks@;
        cx.callbacks.push(
            Callback::CodeActions {
                server: server.id,
                offset_encoding: server.offset_encoding,
                document,
                range,
                diagnostics,
                only: None,
            },
        );
        assert(cx.callbacks@.take(sent as int) =~= earlier.take(sent as int));
        i += 1;
    }
}

/// A menu of actions.
#[derive(Debug, PartialEq, Eq)]
pub struct Menu {
    pub actions: Vec<(CodeActionOrCommand, OffsetEncoding)>,
    /// The server that runs the commands of the menu.
    pub server: usize,
    /// Whether the first action is selected from the start.
    pub preselect_first: bool,
}

/// What an answer with actions does to the menu.
#[derive(Debug, PartialEq, Eq)]
pub enum MenuUpdate {
    Nothing,
    /// Show a menu.
    Show(Popup<Menu>),
    /// Add the actions to the menu that is shown.
    AddOptions(Vec<(CodeActionOrCommand, OffsetEncoding)>),
}

/// What a `MenuUpdate` asks for.
pub enum MenuView {
    Nothing,
    Show { actions: Seq<(CodeActionOrCommand, OffsetEncoding)>, server: usize },
    AddOptions(Seq<(CodeActionOrCommand, OffsetEncoding)>),
}

/// Whether a menu has its first action selected from the start, in a popup that
/// goes when the user does something else.
pub open spec fn well_shown(popup: Popup<Menu>) -> bool {
    &&& popup == passing(PopupId::CodeAction, popup.contents)
    &&& popup.contents.preselect_first
}

impl View for MenuUpdate {
    type V = MenuView;

    open spec fn view(&self) -> MenuView {
        match *self {
            MenuUpdate::Nothing => MenuView::Nothing,
            MenuUpdate::Show(popup) => MenuView::Show {
                actions: popup.contents.actions@,
                server: popup.contents.server,
            },
            MenuUpdate::AddOptions(actions) => MenuView::AddOptions(actions@),
        }
    }
}

/// The menu of one request for actions, which several servers answer.
#[derive(Debug, Clone, Copy, PartialEq, Eq, Structural)]
pub struct CodeActionMenu {
    /// Whether an answer to this request has shown its menu. A menu of an
    /// earlier request does not count.
    pub open: bool,
}

/// Actions with the encoding in which their edits are counted.
pub open spec fn actions_in(
    actions: Seq<CodeActionOrCommand>,
    offset_encoding: OffsetEncoding,
) -> Seq<(CodeActionOrCommand, OffsetEncoding)> {
    actions.map_values(|action: CodeActionOrCommand| (action, offset_encoding))
}

/// The actions of an answer, with their encoding.
pub open spec fn actions_answer(
    response: Option<Vec<CodeActionOrCommand>>,
    offset_encoding: OffsetEncoding,
) -> Option<Seq<(CodeActionOrCommand, OffsetEncoding)>> {
    match response {
        None => None,
        Some(actions) => Some(actions_in(actions@, offset_encoding)),
    }
}

/// What an answer does: whether the menu is open after it, what is to be done,
/// and whether the user is told that there are no actions. `shown` says whether
/// a menu of actions is on the screen.
pub open spec fn menu_step(
    open: bool,
    answer: Option<Seq<(CodeActionOrCommand, OffsetEncoding)>>,
    server: usize,
    shown: bool,
) -> (bool, MenuView, bool) {
    match answer {
        None => (open, MenuView::Nothing, false),
        Some(actions) => if actions.len() == 0 && !open {
            (false, MenuView::Nothing, true)
        } else if !open || !shown {
            (true, MenuView::Show { actions, server }, false)
        } else {
            (true, MenuView::AddOptions(actions), false)
        },
    }
}

impl CodeActionMenu {
    /// A menu that no answer has shown yet.
    pub fn new() -> (menu: CodeActionMenu)
        ensures
            !menu.open,
    {
        CodeActionMenu { open: false }
    }

    /// Takes the answer of a server. `menu_is_shown` says whether a menu of
    /// actions is on the screen.
    pub fn answered(
        &mut self,
        editor: &mut Editor,
        response: Option<Vec<CodeActionOrCommand>>,
        offset_encoding: OffsetEncoding,
        server: usize,
        menu_is_shown: bool,
    ) -> (update: MenuUpdate)
        ensures
            ({
                let (open, view, tells) = menu_step(
                    old(self).open,
                    actions_answer(response, offset_encoding),
                    server,
                    menu_is_shown,
                );
                &&& final(self).open == open
                &&& update@ == view
                &&& update matches MenuUpdate::Show(popup) ==> well_shown(popup)
                &&& tells ==> shows(
                    *old(editor),
                    *final(editor),
                    Severity::Info,
                    "No code actions available"@,
                )
                &&& !tells ==> *final(editor) == *old(editor)
            }),
    {
        let response = match response {
            Some(response) => response,
            None => return MenuUpdate::Nothing,
        };
        let ghost all = response@;
        let mut actions: Vec<(CodeActionOrCommand, OffsetEncoding)> = Vec::new();
        for action in it: response
            invariant
                it.seq() == all,
                actions@.len() == it.index(),
                forall|k: int|
                    0 <= k < it.index() ==> actions@[k] == (#[trigger] all[k], offset_encoding),
        {
            actions.push((action, offset_encoding));
        }
        assert(actions@ =~= actions_in(all, offset_encoding));
        if actions.len() == 0 && !self.open {
            editor.set_status("No code actions available".to_owned());
            return MenuUpdate::Nothing;
        }
        if !self.open || !menu_is_shown {
            self.open = true;
            let menu = Menu { actions, server, preselect_first: true };
            MenuUpdate::Show(passing_popup(PopupId::CodeAction, menu))
        } else {
            MenuUpdate::AddOptions(actions)
        }
    }
}

/// What the user did in a prompt or a menu.
#[derive(Debug, Clone, Copy, PartialEq, Eq, Structural)]
pub enum PromptEvent {
    Update,
    Validate,
    Abort,
}

/// What a chosen action does.
#[derive(Debug, PartialEq, Eq)]
pub enum ActionStep {
    /// Carry out the edit.
    Edit(EditRun),
    /// Let the server run the command.
    Execute { server: usize, command: Command },
}

/// What an `ActionStep` asks for.
pub enum ActionStepView {
    Edit(RunView),
    Execute { server: usize, command: Command },
}

impl View for ActionStep {
    type V = ActionStepView;

    open spec fn view(&self) -> ActionStepView {
        match *self {
            ActionStep::Edit(run) => ActionStepView::Edit(run@),
            ActionStep::Execute { server, command } => ActionStepView::Execute { server, command },
        }
    }
}

/// What some steps ask for, in order.
pub open spec fn step_views(steps: Seq<ActionStep>) -> Seq<ActionStepView> {
    steps.map_values(|step: ActionStep| step@)
}

/// What a chosen action does: first its edit, then its command.
pub open spec fn choice_steps(
    choice: CodeActionOrCommand,
    offset_encoding: OffsetEncoding,
    server: usize,
) -> Seq<ActionStepView> {
    match choice {
        CodeActionOrCommand::Command(command) => seq![ActionStepView::Execute { server, command }],
        CodeActionOrCommand::CodeAction(action) => (match action.edit {
            Some(edit) => seq![
                ActionStepView::Edit(
                    RunView { offset_encoding, pending: plan(edit), opening: None },
                ),
            ],
            None => Seq::empty(),
        }) + (match action.command {
            Some(command) => seq![ActionStepView::Execute { server, command }],
            None => Seq::empty(),
        }),
    }
}

/// Takes what the user did with an action of the menu of `server`. Only an
/// action that is chosen does anything.
pub fn menu_event(
    choice: CodeActionOrCommand,
    offset_encoding: OffsetEncoding,
    server: usize,
    event: PromptEvent,
) -> (steps: Vec<ActionStep>)
    ensures
        step_views(steps@) == match event {
            PromptEvent::Validate => choice_steps(choice, offset_encoding, server),
            _ => Seq::empty(),
        },
{
    let mut steps: Vec<ActionStep> = Vec::new();
    if event != PromptEvent::Validate {
        assert(step_views(steps@) =~= Seq::empty());
        return steps;
    }
    let ghost chosen = choice;
    match choice {
        CodeActionOrCommand::Command(command) => {
            steps.push(ActionStep::Execute { server, command });
        },
        CodeActionOrCommand::CodeAction(action) => {
            if let Some(workspace_edit) = &action.edit {
                steps.push(ActionStep::Edit(apply_workspace_edit(offset_encoding, workspace_edit)));
            }
            if let Some(command) = action.command {
                steps.push(ActionStep::Execute { server, command });
            }
        },
    }
    assert(step_views(steps@) =~= choice_steps(chosen, offset_encoding, server));
    steps
}

/// Takes what the user did in the menu of `server`, where `choice` is the action
/// that is selected, if any is. One is selected whenever an action is chosen.
pub fn menu_callback(
    choice: Option<(CodeActionOrCommand, OffsetEncoding)>,
    server: usize,
    event: PromptEvent,
) -> (steps: Vec<ActionStep>)
    requires
        event is Validate ==> choice is Some,
    ensures
        step_views(steps@) == match event {
            PromptEvent::Validate => choice_steps((choice->0).0, (choice->0).1, server),
            _ => Seq::empty(),
        },
{
    match choice {
        Some((action, offset_encoding)) => menu_event(action, offset_encoding, server, event),
        None => {
            let steps: Vec<ActionStep> = Vec::new();
            assert(step_views(steps@) =~= Seq::empty());
            steps
        },
    }
}

/// Lets a server run a command. Where the server does not run, the status line
/// says so.
pub fn execute_lsp_command(cx: &mut Context, language_server_id: usize, cmd: Command)
    ensures
        match server_by_id(old(cx).editor.language_servers@, language_server_id) {
            Some(server) => asked(
                *old(cx),
                *final(cx),
                Callback::ExecuteCommand { server: server.id, command: cmd },
            ),
            None => told(*old(cx), *final(cx), Severity::Info, no_server_message()),
        },
{
    if let Some(server) = cx.language_server_by_id(language_server_id) {
        cx.callbacks.push(Callback::ExecuteCommand { server: server.id, command: cmd });
    }
}

/// Where an action has both an edit and a command, the edit comes first.
pub proof fn law_edit_before_command(
    choice: CodeActionOrCommand,
    offset_encoding: OffsetEncoding,
    server: usize,
)
    ensures
        forall|i: int, j: int|
            0 <= i < choice_steps(choice, offset_encoding, server).len() && 0 <= j < choice_steps(
                choice,
                offset_encoding,
                server,
            ).len() && (#[trigger] choice_steps(choice, offset_encoding, server)[i]) is Edit && (
            #[trigger] choice_steps(choice, offset_encoding, server)[j]) is Execute ==> i < j,
{
}

/// The actions of the menu once an answer was taken, while the user closes
/// nothing. `menu` holds the actions that were shown before.
pub open spec fn menu_after(
    menu: Option<Seq<(CodeActionOrCommand, OffsetEncoding)>>,
    answer: Option<Seq<(CodeActionOrCommand, OffsetEncoding)>>,
    server: usize,
) -> Option<Seq<(CodeActionOrCommand, OffsetEncoding)>> {
    match menu_step(menu is Some, answer, server, menu is Some).1 {
        MenuView::Nothing => menu,
        MenuView::Show { actions, server } => Some(actions),
        MenuView::AddOptions(actions) => Some(menu->0 + actions),
    }
}

/// The actions of the menu once some answers were taken, one after the other.
pub open spec fn menu_after_all(
    answers: Seq<(Option<Seq<(CodeActionOrCommand, OffsetEncoding)>>, usize)>,
) -> Option<Seq<(CodeActionOrCommand, OffsetEncoding)>>
    decreases answers.len(),
{
    if answers.len() == 0 {
        None
    } else {
        menu_after(menu_after_all(answers.drop_last()), answers.last().0, answers.last().1)
    }
}

/// The actions of all answers, one answer after the other.
pub open spec fn all_actions(
    answers: Seq<(Option<Seq<(CodeActionOrCommand, OffsetEncoding)>>, usize)>,
) -> Seq<(CodeActionOrCommand, OffsetEncoding)>
    decreases answers.len(),
{
    if answers.len() == 0 {
        Seq::empty()
    } else {
        all_actions(answers.drop_last()) + match answers.last().0 {
            Some(actions) => actions,
            None => Seq::empty(),
        }
    }
}

/// The menu shows the actions of all servers in the order in which they came,
/// and it is shown as soon as there is one: no action is lost, and no menu is
/// empty.
pub proof fn law_menu_shows_all_actions(
    answers: Seq<(Option<Seq<(CodeActionOrCommand, OffsetEncoding)>>, usize)>,
)
    ensures
        menu_after_all(answers) == if all_actions(answers).len() == 0 {
            None
        } else {
            Some(all_actions(answers))
        },
    decreases answers.len(),
{
    if answers.len() > 0 {
        law_menu_shows_all_actions(answers.drop_last());
        let before = all_actions(answers.drop_last());
        if let Some(actions) = answers.last().0 {
            if before.len() == 0 {
                assert(before + actions =~= actions);
            }
        } else {
            assert(before + Seq::empty() =~= before);
        }
    }
}

/// Once an answer has shown the menu, the user is never told that there are no
/// actions, and the menu counts as shown from then on.
pub proof fn law_no_contradiction_once_open(
    answer: Option<Seq<(CodeActionOrCommand, OffsetEncoding)>>,
    server: usize,
    shown: bool,
)
    ensures
        menu_step(true, answer, server, shown).0,
        !menu_step(true, answer, server, shown).2,
{
}

/// A menu that an earlier request left on the screen is replaced, never added
/// to, by the first answer that brings actions.
pub proof fn law_stale_menu_is_replaced(
    actions: Seq<(CodeActionOrCommand, OffsetEncoding)>,
    server: usize,
    shown: bool,
)
    requires
        actions.len() > 0,
    ensures
        menu_step(false, Some(actions), server, shown).1 == (MenuView::Show { actions, server }),
{
}

/// A chosen action carries out its edit, where it has one, however the edit holds
/// its changes, and then lets the server run its command, where it has one. A
/// chosen command is run. Nothing else is done.
pub proof fn law_choice_does_all_it_offers(
    choice: CodeActionOrCommand,
    offset_encoding: OffsetEncoding,
    server: usize,
)
    ensures
        ({
            let steps = choice_steps(choice, offset_encoding, server);
            match choice {
                CodeActionOrCommand::Command(command) => {
                    &&& steps.len() == 1
                    &&& steps[0] == (ActionStepView::Execute { server, command })
                },
                CodeActionOrCommand::CodeAction(action) => {
                    &&& steps.len() == (if action.edit is Some {
                        1int
                    } else {
                        0int
                    }) + (if action.command is Some {
                        1int
                    } else {
                        0int
                    })
                    &&& action.edit matches Some(edit) ==> {
                        &&& steps[0] is Edit
                        &&& (steps[0]->Edit_0).pending == plan(edit)
                        &&& (steps[0]->Edit_0).offset_encoding == offset_encoding
                        &&& (steps[0]->Edit_0).opening is None
                    }
                    &&& action.command matches Some(command) ==> steps.last() == (
                    ActionStepView::Execute { server, command })
                },
            }
        }),
{
}

/// The run of a chosen action has one task for each document or operation that its
/// edit names, and each task is for that document or operation.
pub proof fn law_chosen_edit_names_its_documents(
    action: CodeAction,
    edit: WorkspaceEdit,
    offset_encoding: OffsetEncoding,
    server: usize,
)
    requires
        action.edit == Some(edit),
    ensures
        ({
            let steps = choice_steps(
                CodeActionOrCommand::CodeAction(action),
                offset_encoding,
                server,
            );
            let pending = (steps[0]->Edit_0).pending;
            &&& steps.len() > 0
            &&& steps[0] is Edit
            &&& edit.changes matches Some(changes) ==> {
                &&& pending.len() == changes@.len()
                &&& forall|i: int|
                    0 <= i < changes@.len() ==> (#[trigger] pending[i])->uri == changes@[i].0
                        && pending[i]->edits == changes@[i].1@
            }
            &&& edit.changes is None ==> match edit.document_changes {
                None => pending.len() == 0,
                Some(DocumentChanges::Edits(documents)) => {
                    &&& pending.len() == documents@.len()
                    &&& forall|i: int|
                        0 <= i < documents@.len() ==> (#[trigger] pending[i])->uri
                            == documents@[i].uri && pending[i]->edits.len()
                            == documents@[i].edits@.len()
                },
                Some(DocumentChanges::Operations(operations)) => pending.len()
                    == operations@.len(),
            }
        }),
{
}

/// The view of a step shows everything that the step asks for.
pub proof fn law_action_step_view_is_faithful(steps: Seq<ActionStep>)
    ensures
        step_views(steps).len() == steps.len(),
        forall|i: int|
            0 <= i < steps.len() ==> (match #[trigger] steps[i] {
                ActionStep::Edit(run) => step_views(steps)[i] == ActionStepView::Edit(run@),
                ActionStep::Execute { server, command } => step_views(steps)[i] == (
                ActionStepView::Execute { server, command }),
            }),
{
}

/// The view of an update shows its actions and the server of its menu.
pub proof fn law_menu_view_is_faithful(update: MenuUpdate)
    ensures
        match update {
            MenuUpdate::Nothing => update@ is Nothing,
            MenuUpdate::Show(popup) => update@ == (MenuView::Show {
                actions: popup.contents.actions@,
                server: popup.contents.server,
            }),
            MenuUpdate::AddOptions(actions) => update@ == MenuView::AddOptions(actions@),
        },
{
}

/// A menu is shown in a popup of its own, at the cursor, with its first action
/// selected, and goes when the user does something else.
pub proof fn law_menu_is_well_shown(popup: Popup<Menu>)
    requires
        well_shown(popup),
    ensures
        popup.id is CodeAction,
        popup.position is None,
        popup.position_bias is None,
        !popup.ignore_escape_key,
        popup.auto_close,
        popup.contents.preselect_first,
{
}

/// Every action of an answer is kept, in order, with the encoding of the server
/// that offers it.
pub proof fn law_answered_actions_are_kept(
    response: Option<Vec<CodeActionOrCommand>>,
    offset_encoding: OffsetEncoding,
)
    ensures
        match response {
            None => actions_answer(response, offset_encoding) is None,
            Some(actions) => {
                &&& actions_answer(response, offset_encoding) is Some
                &&& actions_answer(response, offset_encoding)->0.len() == actions@.len()
                &&& forall|i: int|
                    0 <= i < actions@.len() ==> actions_answer(response, offset_encoding)->0[i] == (
                        #[trigger] actions@[i],
                        offset_encoding,
                    )
            },
        },
{
}

/// No answer changes nothing. An answer without actions is reported until a menu
/// of this request was shown. The first actions make a menu, and so do those that
/// come after the user closed it; all others join the menu that is shown.
pub proof fn law_each_answer_has_its_effect(
    open: bool,
    actions: Seq<(CodeActionOrCommand, OffsetEncoding)>,
    server: usize,
    shown: bool,
)
    ensures
        menu_step(open, None, server, shown) == (open, MenuView::Nothing, false),
        !open && actions.len() == 0 ==> menu_step(open, Some(actions), server, shown) == (
            false,
            MenuView::Nothing,
            true,
        ),
        !open && actions.len() > 0 || open && !shown ==> menu_step(
            open,
            Some(actions),
            server,
            shown,
        ) == (true, MenuView::Show { actions, server }, false),
        open && shown ==> menu_step(open, Some(actions), server, shown) == (
            true,
            MenuView::AddOptions(actions),
            false,
        ),
{
}

/// A diagnostic goes with a request exactly where it overlaps the selection: they
/// begin at the same place, or each begins before the other ends. None goes twice,
/// and they go in order.
pub proof fn law_overlapping_diagnostics_go_along(
    numbers: Seq<usize>,
    diagnostics: Seq<DiagnosticSpan>,
    selection: Range,
    number: usize,
)
    requires
        are_overlapping(numbers, diagnostics, selection),
    ensures
        numbers.contains(number) ==> number < diagnostics.len(),
        number < diagnostics.len() ==> {
            let span = diagnostics[number as int];
            let from = if selection.anchor < selection.head {
                selection.anchor
            } else {
                selection.head
            };
            let to = if selection.anchor < selection.head {
                selection.head
            } else {
                selection.anchor
            };
            let start = if span.start < span.end {
                span.start
            } else {
                span.end
            };
            let end = if span.start < span.end {
                span.end
            } else {
                span.start
            };
            numbers.contains(number) <==> from == start || from < end && start < to
        },
        forall|i: int, j: int|
            0 <= i < j < numbers.len() ==> #[trigger] numbers[i] < #[trigger] numbers[j],
{
}

/// A request for actions goes to its server, about the document and the stretch
/// that is selected, as that server counts it, for actions of all kinds.
pub proof fn law_action_request_suits_its_server(
    callback: Callback,
    doc: Document,
    server: LanguageServer,
)
    requires
        asks_for_actions(callback, doc, server),
    ensures
        callback matches Callback::CodeActions {
            server: id,
            offset_encoding,
            document,
            range,
            diagnostics,
            only,
        } && {
            &&& id == server.id
            &&& offset_encoding == server.offset_encoding
            &&& document == doc.identifier
            &&& offset_encoding is Utf8 ==> range == doc.selection_range.utf8
            &&& offset_encoding is Utf16 ==> range == doc.selection_range.utf16
            &&& offset_encoding is Utf32 ==> range == doc.selection_range.utf32
            &&& only is None
            &&& are_overlapping(diagnostics@, doc.diagnostics@, doc.selection)
        },
{
}

} // verus!
