//! Changes to the workspace that a server asks for.

use crate::foreign::{gives_path, url_to_file_path};
use crate::protocol::{
    AnnotatedTextEdit, DeleteOptions, DocumentChangeOperation, DocumentChanges, OffsetEncoding,
    OneOf, ResourceOp, TextDocumentEdit, TextEdit, Uri, WorkspaceEdit, WriteOptions,
};
use std::collections::VecDeque;
use std::path::PathBuf;
use vstd::prelude::*;
use vstd::string::StringExecFns;

verus! {

/// One thing that a workspace edit asks for.
#[derive(Debug, PartialEq, Eq)]
pub enum Task {
    Edits { uri: Uri, edits: Vec<TextEdit> },
    Resource(ResourceOp),
}

/// What a `Task` asks for.
pub enum TaskView {
    Edits { uri: Uri, edits: Seq<TextEdit> },
    Resource(ResourceOp),
}

impl View for Task {
    type V = TaskView;

    open spec fn view(&self) -> TaskView {
        match *self {
            Task::Edits { uri, edits } => TaskView::Edits { uri, edits: edits@ },
            Task::Resource(op) => TaskView::Resource(op),
        }
    }
}

/// The edit itself, without its annotation.
pub open spec fn plain_edit(edit: OneOf<TextEdit, AnnotatedTextEdit>) -> TextEdit {
    match edit {
        OneOf::Left(text_edit) => text_edit,
        OneOf::Right(annotated) => annotated.text_edit,
    }
}

/// The task of editing one document.
pub open spec fn document_task(edit: TextDocumentEdit) -> TaskView {
    TaskView::Edits {
        uri: edit.uri,
        edits: edit.edits@.map_values(|e: OneOf<TextEdit, AnnotatedTextEdit>| plain_edit(e)),
    }
}

/// The task that one operation of a list of changes asks for.
pub open spec fn operation_task(operation: DocumentChangeOperation) -> TaskView {
    match operation {
        DocumentChangeOperation::Op(op) => TaskView::Resource(op),
        DocumentChangeOperation::Edit(edit) => document_task(edit),
    }
}

/// The task of editing one document of the plain list of changes.
pub open spec fn change_task(change: (Uri, Vec<TextEdit>)) -> TaskView {
    TaskView::Edits { uri: change.0, edits: change.1@ }
}

/// All that `edit` asks for, in order. Where it holds a plain list of changes,
/// nothing else in it counts.
pub open spec fn plan(edit: WorkspaceEdit) -> Seq<TaskView> {
    match edit.changes {
        Some(changes) => changes@.map_values(|change: (Uri, Vec<TextEdit>)| change_task(change)),
        None => match edit.document_changes {
            None => Seq::empty(),
            Some(DocumentChanges::Edits(edits)) => {
                edits@.map_values(|e: TextDocumentEdit| document_task(e))
            },
            Some(DocumentChanges::Operations(operations)) => {
                operations@.map_values(|op: DocumentChangeOperation| operation_task(op))
            },
        },
    }
}

/// The views of some tasks.
pub open spec fn task_views(tasks: Seq<Task>) -> Seq<TaskView> {
    tasks.map_values(|task: Task| task@)
}

/// Copies edits.
fn copy_edits(edits: &Vec<TextEdit>) -> (copy: Vec<TextEdit>)
    ensures
        copy@ == edits@,
{
    let mut copy: Vec<TextEdit> = Vec::new();
    let mut i: usize = 0;
    while i < edits.len()
        invariant
            i <= edits@.len(),
            copy@ == edits@.take(i as int),
        decreases edits@.len() - i,
    {
        copy.push(edits[i].clone());
        assert(edits@.take(i + 1) =~= edits@.take(i as int).push(edits@[i as int]));
        i += 1;
    }
    assert(edits@.take(edits@.len() as int) =~= edits@);
    copy
}

/// The task of editing one document.
fn take_document_edit(edit: &TextDocumentEdit) -> (task: Task)
    ensures
        task@ == document_task(*edit),
{
    let mut edits: Vec<TextEdit> = Vec::new();
    let mut i: usize = 0;
    while i < edit.edits.len()
        invariant
            i <= edit.edits@.len(),
            edits@.len() == i,
            forall|k: int| 0 <= k < i ==> edits@[k] == plain_edit(#[trigger] edit.edits@[k]),
        decreases edit.edits@.len() - i,
    {
        let plain = match &edit.edits[i] {
            OneOf::Left(text_edit) => text_edit.clone(),
            OneOf::Right(annotated) => annotated.text_edit.clone(),
        };
        edits.push(plain);
        i += 1;
    }
    let task = Task::Edits { uri: edit.uri.clone(), edits };
    assert(task@->edits =~= document_task(*edit)->edits);
    task
}

/// The document that an opened file is shown in.
#[derive(Debug, PartialEq, Eq)]
pub struct Opened {
    pub document: u64,
    /// The views that show the document.
    pub views: Vec<u64>,
}

/// A document that is being opened for its edits.
#[derive(Debug, PartialEq, Eq)]
pub struct Opening {
    pub uri: Uri,
    pub edits: Vec<TextEdit>,
    /// The view that had the focus before the document was opened.
    pub current_view: u64,
}

/// What an `Opening` holds.
pub struct OpeningView {
    pub uri: Uri,
    pub edits: Seq<TextEdit>,
    pub current_view: u64,
}

impl View for Opening {
    type V = OpeningView;

    open spec fn view(&self) -> OpeningView {
        OpeningView { uri: self.uri, edits: self.edits@, current_view: self.current_view }
    }
}

/// A workspace edit that is being carried out.
#[derive(Debug, PartialEq, Eq)]
pub struct EditRun {
    pub offset_encoding: OffsetEncoding,
    /// What is still to be done, in order.
    pub pending: VecDeque<Task>,
    /// The document that is being opened.
    pub opening: Option<Opening>,
}

/// How far an `EditRun` has come.
#[verifier::ext_equal]
pub struct RunView {
    pub offset_encoding: OffsetEncoding,
    pub pending: Seq<TaskView>,
    pub opening: Option<OpeningView>,
}

impl View for EditRun {
    type V = RunView;

    open spec fn view(&self) -> RunView {
        RunView {
            offset_encoding: self.offset_encoding,
            pending: task_views(self.pending@),
            opening: match self.opening {
                Some(opening) => Some(opening@),
                None => None,
            },
        }
    }
}

/// What the program has to do next for a workspace edit.
#[derive(Debug, PartialEq, Eq)]
pub enum EditStep {
    /// Everything is done.
    Done,
    /// Show an error, then go on.
    SetError(String),
    /// Load the file without showing it, and hand back the outcome.
    Open(PathBuf),
    /// Make the edits in the document, as one step of the view's history.
    Apply { document: u64, view: u64, edits: Vec<TextEdit>, offset_encoding: OffsetEncoding },
    /// Carry out the change to the files, then go on.
    Resource(ResourceOp),
}

/// What an `EditStep` says.
pub enum StepView {
    Done,
    SetError(Seq<char>),
    Open(PathBuf),
    Apply { document: u64, view: u64, edits: Seq<TextEdit>, offset_encoding: OffsetEncoding },
    Resource(ResourceOp),
}

impl View for EditStep {
    type V = StepView;

    open spec fn view(&self) -> StepView {
        match *self {
            EditStep::Done => StepView::Done,
            EditStep::SetError(message) => StepView::SetError(message@),
            EditStep::Open(path) => StepView::Open(path),
            EditStep::Apply { document, view, edits, offset_encoding } => {
                StepView::Apply { document, view, edits: edits@, offset_encoding }
            },
            EditStep::Resource(op) => StepView::Resource(op),
        }
    }
}

/// The message for an address that is no path.
pub open spec fn no_path_message(uri: Uri) -> Seq<char> {
    "unable to convert URI to filepath: "@ + uri.text@
}

/// The message for an address that is no path.
pub fn no_path_error(uri: &Uri) -> (message: String)
    ensures
        message@ == no_path_message(*uri),
{
    let mut message = "unable to convert URI to filepath: ".to_owned();
    message.append(uri.text.as_str());
    message
}

/// The message for a document that did not open, with the reason.
pub open spec fn no_document_message(uri: Uri, reason: Seq<char>) -> Seq<char> {
    "failed to open document: "@ + uri.text@ + ": "@ + reason
}

/// The message for a document that did not open, with the reason.
pub fn no_document_error(uri: &Uri, reason: &str) -> (message: String)
    ensures
        message@ == no_document_message(*uri, reason@),
{
    let mut message = "failed to open document: ".to_owned();
    message.append(uri.text.as_str());
    message.append(": ");
    message.append(reason);
    message
}

/// The step for edits to the document at `uri`, where its address gave `path`.
pub open spec fn edits_begun(
    run: RunView,
    uri: Uri,
    edits: Seq<TextEdit>,
    current_view: u64,
    path: Option<PathBuf>,
) -> (RunView, StepView) {
    match path {
        Some(path) => (
            RunView { opening: Some(OpeningView { uri, edits, current_view }), ..run },
            StepView::Open(path),
        ),
        None => (run, StepView::SetError(no_path_message(uri))),
    }
}

/// The next step of a run that is opening nothing. `path` is what the address
/// of the next document gives, where the next task is to edit one.
pub open spec fn advanced(run: RunView, current_view: u64, path: Option<PathBuf>) -> (
    RunView,
    StepView,
) {
    if run.pending.len() == 0 {
        (run, StepView::Done)
    } else {
        let rest = RunView { pending: run.pending.skip(1), ..run };
        match run.pending[0] {
            TaskView::Resource(op) => (rest, StepView::Resource(op)),
            TaskView::Edits { uri, edits } => edits_begun(rest, uri, edits, current_view, path),
        }
    }
}

/// The view in which edits are made: the one that has the focus, where it shows
/// the document, and the first that does otherwise.
pub open spec fn edit_view(current_view: u64, views: Seq<u64>) -> u64 {
    if views.contains(current_view) {
        current_view
    } else {
        views[0]
    }
}

/// What opening a document came to: the document and its views, or the reason
/// why it did not open.
pub open spec fn outcome_view(outcome: Result<Opened, String>) -> Result<
    (u64, Seq<u64>),
    Seq<char>,
> {
    match outcome {
        Ok(opened) => Ok((opened.document, opened.views@)),
        Err(reason) => Err(reason@),
    }
}

/// The step after a document was opened or not.
pub open spec fn answered(run: RunView, outcome: Result<(u64, Seq<u64>), Seq<char>>) -> (
    RunView,
    StepView,
) {
    let opening = run.opening->0;
    let ready = RunView { opening: None, ..run };
    match outcome {
        Ok((document, views)) => (
            ready,
            StepView::Apply {
                document,
                view: edit_view(opening.current_view, views),
                edits: opening.edits,
                offset_encoding: run.offset_encoding,
            },
        ),
        Err(reason) => (ready, StepView::SetError(no_document_message(opening.uri, reason))),
    }
}

/// A run that does nothing more.
pub open spec fn abandoned(run: RunView) -> RunView {
    RunView { pending: Seq::empty(), opening: None, ..run }
}

/// The view in which edits are made.
pub fn choose_view(current_view: u64, views: &Vec<u64>) -> (view: u64)
    requires
        views@.len() > 0,
    ensures
        view == edit_view(current_view, views@),
{
    let mut i: usize = 0;
    while i < views.len()
        invariant
            i <= views@.len(),
            forall|k: int| 0 <= k < i ==> views@[k] != current_view,
        decreases views@.len() - i,
    {
        if views[i] == current_view {
            assert(views@.contains(views@[i as int]));
            return current_view;
        }
        i += 1;
    }
    views[0]
}

impl EditRun {
    /// Begins the edits to the document at `uri`, whose address gave `path`.
    pub fn begin_edits(
        &mut self,
        uri: Uri,
        edits: Vec<TextEdit>,
        current_view: u64,
        path: Option<PathBuf>,
    ) -> (step: EditStep)
        requires
            old(self).opening is None,
        ensures
            (final(self)@, step@) == edits_begun(old(self)@, uri, edits@, current_view, path),
    {
        match path {
            Some(path) => {
                self.opening = Some(Opening { uri, edits, current_view });
                EditStep::Open(path)
            },
            None => EditStep::SetError(no_path_error(&uri)),
        }
    }

    /// Takes the next task. `current_view` is the view that has the focus.
    pub fn advance(&mut self, current_view: u64) -> (step: EditStep)
        requires
            old(self).opening is None,
        ensures
            exists|path: Option<PathBuf>|
                {
                    &&& (final(self)@, step@) == #[trigger] advanced(
                        old(self)@,
                        current_view,
                        path,
                    )
                    &&& old(self)@.pending.len() > 0 && old(self)@.pending[0] is Edits
                        ==> gives_path(old(self)@.pending[0]->uri.text@, path)
                },
    {
        let ghost before = self@;
        match self.pending.pop_front() {
            None => {
                assert((self@, StepView::Done) == advanced(before, current_view, None));
                EditStep::Done
            },
            Some(task) => {
                assert(task_views(self.pending@) =~= before.pending.skip(1));
                match task {
                    Task::Resource(op) => {
                        let step = EditStep::Resource(op);
                        assert((self@, step@) == advanced(before, current_view, None));
                        step
                    },
                    Task::Edits { uri, edits } => {
                        let path = url_to_file_path(uri.text.as_str());
                        let ghost given = path;
                        let step = self.begin_edits(uri, edits, current_view, path);
                        assert((self@, step@) == advanced(before, current_view, given));
                        step
                    },
                }
            },
        }
    }

    /// Takes the outcome of opening a document.
    pub fn opened(&mut self, outcome: Result<Opened, String>) -> (step: EditStep)
        requires
            old(self).opening is Some,
            outcome matches Ok(opened) ==> opened.views@.len() > 0,
        ensures
            (final(self)@, step@) == answered(old(self)@, outcome_view(outcome)),
    {
        let opening = self.opening.take().unwrap();
        match outcome {
            Ok(opened) => {
                let view: u64 = choose_view(opening.current_view, &opened.views);
                EditStep::Apply {
                    document: opened.document,
                    view,
                    edits: opening.edits,
                    offset_encoding: self.offset_encoding,
                }
            },
            Err(reason) => EditStep::SetError(
                no_document_error(&opening.uri, reason.as_str()),
            ),
        }
    }

    /// Takes the failure of a change to the files: nothing more is done.
    pub fn failed(&mut self)
        ensures
            final(self)@ == abandoned(old(self)@),
    {
        self.pending.clear();
        self.opening = None;
        assert(task_views(self.pending@) =~= Seq::empty());
    }
}

/// Begins to carry out a workspace edit.
pub fn apply_workspace_edit(
    offset_encoding: OffsetEncoding,
    workspace_edit: &WorkspaceEdit,
) -> (run: EditRun)
    ensures
        run@ == (RunView { offset_encoding, pending: plan(*workspace_edit), opening: None }),
{
    let mut pending: VecDeque<Task> = VecDeque::new();
    let ghost whole = plan(*workspace_edit);
    if let Some(changes) = &workspace_edit.changes {
        let mut i: usize = 0;
        while i < changes.len()
            invariant
                i <= changes@.len(),
                workspace_edit.changes == Some(*changes),
                whole == plan(*workspace_edit),
                whole.len() == changes@.len(),
                task_views(pending@) == whole.take(i as int),
            decreases changes@.len() - i,
        {
            let task = Task::Edits { uri: changes[i].0.clone(), edits: copy_edits(&changes[i].1) };
            assert(task@ == whole[i as int]);
            let ghost before = pending@;
            pending.push_back(task);
            assert(task_views(pending@) =~= task_views(before).push(task@));
            assert(whole.take(i + 1) =~= whole.take(i as int).push(whole[i as int]));
            i += 1;
        }
    } else if let Some(document_changes) = &workspace_edit.document_changes {
        match document_changes {
            DocumentChanges::Edits(edits) => {
                let mut i: usize = 0;
                while i < edits.len()
                    invariant
                        i <= edits@.len(),
                        workspace_edit.changes is None,
                        workspace_edit.document_changes == Some(DocumentChanges::Edits(*edits)),
                        whole == plan(*workspace_edit),
                        whole.len() == edits@.len(),
                        task_views(pending@) == whole.take(i as int),
                    decreases edits@.len() - i,
                {
                    let task = take_document_edit(&edits[i]);
                    let ghost before = pending@;
                    pending.push_back(task);
                    assert(task_views(pending@) =~= task_views(before).push(task@));
                    assert(whole.take(i + 1) =~= whole.take(i as int).push(whole[i as int]));
                    i += 1;
                }
            },
            DocumentChanges::Operations(operations) => {
                let mut i: usize = 0;
                while i < operations.len()
                    invariant
                        i <= operations@.len(),
                        workspace_edit.changes is None,
                        workspace_edit.document_changes == Some(
                            DocumentChanges::Operations(*operations),
                        ),
                        whole == plan(*workspace_edit),
                        whole.len() == operations@.len(),
                        task_views(pending@) == whole.take(i as int),
                    decreases operations@.len() - i,
                {
                    let task = match &operations[i] {
                        DocumentChangeOperation::Op(op) => Task::Resource(op.clone()),
                        DocumentChangeOperation::Edit(edit) => take_document_edit(edit),
                    };
                    let ghost before = pending@;
                    pending.push_back(task);
                    assert(task_views(pending@) =~= task_views(before).push(task@));
                    assert(whole.take(i + 1) =~= whole.take(i as int).push(whole[i as int]));
                    i += 1;
                }
            },
        }
    }
    assert(whole.take(whole.len() as int) =~= whole);
    let run = EditRun { offset_encoding, pending, opening: None };
    assert(run@.pending =~= whole);
    run
}

/// What the program answers while one task is carried out: the view that has
/// the focus, the path that the address gives, and what opening it comes to.
pub struct Answer {
    pub current_view: u64,
    pub path: Option<PathBuf>,
    pub outcome: Result<(u64, Seq<u64>), Seq<char>>,
}

/// The steps that one task takes, whatever was done before it.
pub open spec fn task_steps(
    task: TaskView,
    offset_encoding: OffsetEncoding,
    answer: Answer,
) -> Seq<StepView> {
    match task {
        TaskView::Resource(op) => seq![StepView::Resource(op)],
        TaskView::Edits { uri, edits } => match answer.path {
            None => seq![StepView::SetError(no_path_message(uri))],
            Some(path) => seq![
                StepView::Open(path),
                match answer.outcome {
                    Ok((document, views)) => StepView::Apply {
                        document,
                        view: edit_view(answer.current_view, views),
                        edits,
                        offset_encoding,
                    },
                    Err(reason) => StepView::SetError(no_document_message(uri, reason)),
                },
            ],
        },
    }
}

/// The steps of several tasks, one after the other.
pub open spec fn all_steps(
    tasks: Seq<TaskView>,
    offset_encoding: OffsetEncoding,
    answers: Seq<Answer>,
) -> Seq<StepView>
    decreases tasks.len(),
{
    if tasks.len() == 0 {
        Seq::empty()
    } else {
        task_steps(tasks[0], offset_encoding, answers[0]) + all_steps(
            tasks.skip(1),
            offset_encoding,
            answers.skip(1),
        )
    }
}

/// One task of a run: `advance`, and `opened` where a file is to be opened.
pub open spec fn round(run: RunView, answer: Answer) -> (RunView, Seq<StepView>) {
    let (begun, first) = advanced(run, answer.current_view, answer.path);
    if first is Open {
        let (ready, second) = answered(begun, answer.outcome);
        (ready, seq![first, second])
    } else {
        (begun, seq![first])
    }
}

/// A run of as many tasks as there are answers.
pub open spec fn rounds(run: RunView, answers: Seq<Answer>) -> (RunView, Seq<StepView>)
    decreases answers.len(),
{
    if answers.len() == 0 {
        (run, Seq::empty())
    } else {
        let (next, steps) = round(run, answers[0]);
        let (last, more) = rounds(next, answers.skip(1));
        (last, steps + more)
    }
}

/// A workspace edit is carried out task by task, in order, each task once. What
/// a task does depends on that task and its own answers alone: a document that
/// does not open, or an address that is no path, keeps no other task from being
/// carried out.
pub proof fn law_each_task_once_in_order(run: RunView, answers: Seq<Answer>)
    requires
        run.opening is None,
        answers.len() <= run.pending.len(),
    ensures
        rounds(run, answers).0 == (RunView {
            pending: run.pending.skip(answers.len() as int),
            ..run
        }),
        rounds(run, answers).1 == all_steps(
            run.pending.take(answers.len() as int),
            run.offset_encoding,
            answers,
        ),
    decreases answers.len(),
{
    if answers.len() == 0 {
        assert(run.pending.skip(0) =~= run.pending);
        assert(run.pending.take(0) =~= Seq::empty());
    } else {
        let (next, steps) = round(run, answers[0]);
        assert(next == RunView { pending: run.pending.skip(1), ..run });
        assert(steps =~= task_steps(run.pending[0], run.offset_encoding, answers[0]));
        law_each_task_once_in_order(next, answers.skip(1));
        assert(run.pending.skip(1).skip(answers.len() - 1) =~= run.pending.skip(
            answers.len() as int,
        ));
        assert(run.pending.take(answers.len() as int).skip(1) =~= run.pending.skip(1).take(
            answers.len() - 1,
        ));
    }
}

/// Once every task has been carried out, the run is done, and stays so.
pub proof fn law_run_ends(
    run: RunView,
    answers: Seq<Answer>,
    current_view: u64,
    path: Option<PathBuf>,
)
    requires
        run.opening is None,
        answers.len() == run.pending.len(),
    ensures
        advanced(rounds(run, answers).0, current_view, path) == (
            rounds(run, answers).0,
            StepView::Done,
        ),
{
    law_each_task_once_in_order(run, answers);
}

/// A change to the files that fails ends the run, whatever was still to be done.
pub proof fn law_failed_change_ends_run(run: RunView, current_view: u64, path: Option<PathBuf>)
    ensures
        advanced(abandoned(run), current_view, path) == (abandoned(run), StepView::Done),
{
}

/// Where a workspace edit holds a plain list of changes, its other changes make
/// no difference.
pub proof fn law_plain_changes_win(edit: WorkspaceEdit, other: WorkspaceEdit)
    requires
        edit.changes is Some,
        other.changes == edit.changes,
    ensures
        plan(other) == plan(edit),
{
}

/// Edits are made in a view that shows the document.
pub proof fn law_edits_in_a_view_of_the_document(current_view: u64, views: Seq<u64>)
    requires
        views.len() > 0,
    ensures
        views.contains(edit_view(current_view, views)),
{
    assert(views.contains(views[0]));
}

/// What the disk says of a path.
#[derive(Debug, PartialEq, Eq)]
pub struct FileFacts {
    pub path: PathBuf,
    pub exists: bool,
    pub is_dir: bool,
    pub is_file: bool,
    /// The directory that the path stands in, and whether it is there.
    pub parent: Option<(PathBuf, bool)>,
}

/// Something to do on the disk.
#[derive(Debug, PartialEq, Eq)]
pub enum FileAction {
    CreateDirAll(PathBuf),
    /// Write an empty file.
    WriteEmpty(PathBuf),
    RemoveDirAll(PathBuf),
    RemoveDir(PathBuf),
    RemoveFile(PathBuf),
    Rename { from: PathBuf, to: PathBuf },
}

/// The paths that a change to the files is about.
#[derive(Debug, PartialEq, Eq)]
pub struct ResourcePaths {
    /// The path that is moved, in a rename.
    pub from: Option<PathBuf>,
    /// The path that is written, or taken away.
    pub target: PathBuf,
}

/// The address of the path that `op` writes or takes away.
pub open spec fn target_uri(op: ResourceOp) -> Uri {
    match op {
        ResourceOp::Create { uri, options } => uri,
        ResourceOp::Rename { old_uri, new_uri, options } => new_uri,
        ResourceOp::Delete { uri, delete_options } => uri,
    }
}

/// The paths of `op`, where its addresses gave `from` and `target`. Nothing
/// comes back where an address that `op` needs is no path.
pub open spec fn paths_of(
    op: ResourceOp,
    from: Option<PathBuf>,
    target: Option<PathBuf>,
) -> Option<ResourcePaths> {
    match target {
        None => None,
        Some(target) => if op is Rename {
            match from {
                None => None,
                Some(from) => Some(ResourcePaths { from: Some(from), target }),
            }
        } else {
            Some(ResourcePaths { from: None, target })
        },
    }
}

/// The paths of `op`, where its addresses gave `from` and `target`.
pub fn gather_paths(
    op: &ResourceOp,
    from: Option<PathBuf>,
    target: Option<PathBuf>,
) -> (paths: Option<ResourcePaths>)
    ensures
        paths == paths_of(*op, from, target),
{
    let is_rename = matches!(op, ResourceOp::Rename { .. });
    match target {
        None => None,
        Some(target) => if is_rename {
            match from {
                None => None,
                Some(from) => Some(ResourcePaths { from: Some(from), target }),
            }
        } else {
            Some(ResourcePaths { from: None, target })
        },
    }
}

/// The paths that `op` is about, or nothing where an address is no path.
pub fn resource_paths(op: &ResourceOp) -> (paths: Option<ResourcePaths>)
    ensures
        exists|from: Option<PathBuf>, target: Option<PathBuf>|
            {
                &&& paths == #[trigger] paths_of(*op, from, target)
                &&& gives_path(target_uri(*op).text@, target)
                &&& *op is Rename ==> gives_path(op->old_uri.text@, from)
            },
{
    let (from, target) = match op {
        ResourceOp::Create { uri, .. } => (None, url_to_file_path(uri.text.as_str())),
        ResourceOp::Delete { uri, .. } => (None, url_to_file_path(uri.text.as_str())),
        ResourceOp::Rename { old_uri, new_uri, .. } => (
            url_to_file_path(old_uri.text.as_str()),
            url_to_file_path(new_uri.text.as_str()),
        ),
    };
    gather_paths(op, from, target)
}

/// Whether a file that is already there is to be left as it is: the options say
/// so, and do not ask to overwrite it.
pub open spec fn leaves_existing(options: Option<WriteOptions>) -> bool {
    options matches Some(options) && options.overwrite != Some(true) && options.ignore_if_exists
        == Some(true)
}

/// Whether a file that is already there is to be left as it is.
fn keeps_existing(options: &Option<WriteOptions>) -> (keeps: bool)
    ensures
        keeps == leaves_existing(*options),
{
    match options {
        Some(options) => !options.overwrite.unwrap_or(false) && options.ignore_if_exists.unwrap_or(
            false,
        ),
        None => false,
    }
}

/// What `op` does on the disk, in order, where its target is as `facts` says.
pub open spec fn file_actions(
    op: ResourceOp,
    from: Option<PathBuf>,
    facts: FileFacts,
) -> Seq<FileAction> {
    match op {
        ResourceOp::Create { uri, options } => {
            if leaves_existing(options) && facts.exists {
                Seq::empty()
            } else {
                (match facts.parent {
                    Some((dir, is_there)) if !is_there => seq![FileAction::CreateDirAll(dir)],
                    _ => Seq::empty(),
                }).push(FileAction::WriteEmpty(facts.path))
            }
        },
        ResourceOp::Delete { uri, delete_options: options } => {
            if facts.is_dir {
                if options is Some && options->0.recursive == Some(true) {
                    seq![FileAction::RemoveDirAll(facts.path)]
                } else {
                    seq![FileAction::RemoveDir(facts.path)]
                }
            } else if facts.is_file {
                seq![FileAction::RemoveFile(facts.path)]
            } else {
                Seq::empty()
            }
        },
        ResourceOp::Rename { old_uri, new_uri, options } => {
            if leaves_existing(options) && facts.exists {
                Seq::empty()
            } else {
                seq![FileAction::Rename { from: from->0, to: facts.path }]
            }
        },
    }
}

/// What `op` does on the disk, where its target is as `facts` says. The actions
/// are carried out in order, up to the first that fails.
pub fn apply_document_resource_op(
    op: &ResourceOp,
    from: Option<PathBuf>,
    facts: FileFacts,
) -> (actions: Vec<FileAction>)
    requires
        *op is Rename ==> from is Some,
    ensures
        actions@ == file_actions(*op, from, facts),
{
    let mut actions: Vec<FileAction> = Vec::new();
    match op {
        ResourceOp::Create { uri, options } => {
            if !(keeps_existing(options) && facts.exists) {
                if let Some((dir, is_there)) = facts.parent {
                    if !is_there {
                        actions.push(FileAction::CreateDirAll(dir));
                    }
                }
                actions.push(FileAction::WriteEmpty(facts.path));
            }
        },
        ResourceOp::Delete { uri, delete_options: options } => {
            if facts.is_dir {
                let recursive = match options {
                    Some(options) => options.recursive.unwrap_or(false),
                    None => false,
                };
                if recursive {
                    actions.push(FileAction::RemoveDirAll(facts.path));
                } else {
                    actions.push(FileAction::RemoveDir(facts.path));
                }
            } else if facts.is_file {
                actions.push(FileAction::RemoveFile(facts.path));
            }
        },
        ResourceOp::Rename { old_uri, new_uri, options } => {
            if !(keeps_existing(options) && facts.exists) {
                actions.push(FileAction::Rename { from: from.unwrap(), to: facts.path });
            }
        },
    }
    actions
}

/// A file that is there, and is to be ignored and not overwritten, is left
/// alone: nothing at all is done on the disk.
pub proof fn law_existing_file_is_left_alone(
    op: ResourceOp,
    from: Option<PathBuf>,
    facts: FileFacts,
)
    requires
        facts.exists,
        op matches ResourceOp::Create { uri, options } ==> leaves_existing(options),
        op matches ResourceOp::Rename { old_uri, new_uri, options } ==> leaves_existing(options),
        !(op is Delete),
    ensures
        file_actions(op, from, facts).len() == 0,
{
}

/// Where a file is to be overwritten, it is, whatever the options say besides.
pub proof fn law_overwrite_wins(op: ResourceOp, from: Option<PathBuf>, facts: FileFacts)
    requires
        op matches ResourceOp::Create { uri, options } ==> options is Some
            && options->0.overwrite == Some(true),
        op matches ResourceOp::Rename { old_uri, new_uri, options } ==> options is Some
            && options->0.overwrite == Some(true),
        !(op is Delete),
    ensures
        file_actions(op, from, facts).len() > 0,
        op is Create ==> file_actions(op, from, facts).last() == FileAction::WriteEmpty(facts.path),
        op is Rename ==> file_actions(op, from, facts).last() == (FileAction::Rename {
            from: from->0,
            to: facts.path,
        }),
{
}

/// A directory is taken away with what is in it only where that is asked for.
pub proof fn law_no_deep_deletion_unasked(op: ResourceOp, from: Option<PathBuf>, facts: FileFacts)
    requires
        op matches ResourceOp::Delete { uri, delete_options: options } ==> !(options is Some
            && options->0.recursive == Some(true)),
    ensures
        forall|i: int|
            0 <= i < file_actions(op, from, facts).len() ==> !(#[trigger] file_actions(
                op,
                from,
                facts,
            )[i] is RemoveDirAll),
{
}

/// What is on the disk at a path.
pub enum Entry {
    Missing,
    Directory { is_empty: bool },
    File { content: Seq<u8> },
}

/// The disk around a path: what is at the path, and whether the directory that it
/// stands in is there.
pub struct Disk {
    pub target: Entry,
    pub parent_is_there: bool,
}

/// What the disk says of `path`, which stands in `parent`.
pub open spec fn facts_of(disk: Disk, path: PathBuf, parent: Option<PathBuf>) -> FileFacts {
    FileFacts {
        path,
        exists: !(disk.target is Missing),
        is_dir: disk.target is Directory,
        is_file: disk.target is File,
        parent: match parent {
            Some(dir) => Some((dir, disk.parent_is_there)),
            None => None,
        },
    }
}

/// The disk after an action of a creation or a deletion succeeds; `None` where what
/// is on the disk forbids it: a directory cannot be written, nothing can be written
/// in a directory that is not there, and only an empty directory goes alone. A
/// rename touches a second path, and has no place here.
pub open spec fn performed(disk: Disk, action: FileAction) -> Option<Disk> {
    match action {
        FileAction::CreateDirAll(_) => Some(Disk { parent_is_there: true, ..disk }),
        FileAction::WriteEmpty(_) => if disk.target is Directory || !disk.parent_is_there {
            None
        } else {
            Some(Disk { target: Entry::File { content: Seq::empty() }, ..disk })
        },
        FileAction::RemoveDirAll(_) => if disk.target is Directory {
            Some(Disk { target: Entry::Missing, ..disk })
        } else {
            None
        },
        FileAction::RemoveDir(_) => if disk.target == (Entry::Directory { is_empty: true }) {
            Some(Disk { target: Entry::Missing, ..disk })
        } else {
            None
        },
        FileAction::RemoveFile(_) => if disk.target is File {
            Some(Disk { target: Entry::Missing, ..disk })
        } else {
            None
        },
        FileAction::Rename { from, to } => None,
    }
}

/// The disk after some actions succeed, one after the other.
pub open spec fn performed_all(disk: Disk, actions: Seq<FileAction>) -> Option<Disk>
    decreases actions.len(),
{
    if actions.len() == 0 {
        Some(disk)
    } else {
        match performed(disk, actions[0]) {
            Some(next) => performed_all(next, actions.skip(1)),
            None => None,
        }
    }
}

/// To carry out a creation or a deletion a second time changes nothing more: once
/// it has succeeded, it succeeds again, does no more than empty the file that it
/// created, and leaves the disk as it is.
pub proof fn law_second_time_changes_nothing(
    op: ResourceOp,
    from: Option<PathBuf>,
    path: PathBuf,
    parent: Option<PathBuf>,
    disk: Disk,
)
    requires
        !(op is Rename),
        performed_all(disk, file_actions(op, from, facts_of(disk, path, parent))) is Some,
    ensures
        ({
            let later = performed_all(
                disk,
                file_actions(op, from, facts_of(disk, path, parent)),
            )->0;
            let again = file_actions(op, from, facts_of(later, path, parent));
            &&& performed_all(later, again) == Some(later)
            &&& again.len() == 0 || op is Create && again == seq![FileAction::WriteEmpty(path)]
        }),
{
    reveal_with_fuel(performed_all, 3);
    let first = file_actions(op, from, facts_of(disk, path, parent));
    let later = performed_all(disk, first)->0;
    let again = file_actions(op, from, facts_of(later, path, parent));
    if op is Create && again.len() > 0 {
        assert(again =~= seq![FileAction::WriteEmpty(path)]);
    }
}

/// Every document of a plain list of changes is edited, in the order of the list,
/// with its own edits and no others.
pub proof fn law_every_change_is_planned(edit: WorkspaceEdit, changes: Vec<(Uri, Vec<TextEdit>)>)
    requires
        edit.changes == Some(changes),
    ensures
        plan(edit).len() == changes@.len(),
        forall|i: int|
            0 <= i < changes@.len() ==> #[trigger] plan(edit)[i] is Edits && plan(edit)[i]->uri
                == changes@[i].0 && plan(edit)[i]->edits == changes@[i].1@,
{
}

/// Every document edit is planned, in order, with its own edits and no others. An
/// annotation makes no difference to the edit that it explains.
pub proof fn law_every_document_edit_is_planned(edit: WorkspaceEdit, documents: Vec<TextDocumentEdit>)
    requires
        edit.changes is None,
        edit.document_changes == Some(DocumentChanges::Edits(documents)),
    ensures
        plan(edit).len() == documents@.len(),
        forall|i: int|
            0 <= i < documents@.len() ==> #[trigger] plan(edit)[i] is Edits && plan(edit)[i]->uri
                == documents@[i].uri && plan(edit)[i]->edits.len() == documents@[i].edits@.len(),
        forall|i: int, k: int|
            0 <= i < documents@.len() && 0 <= k < documents@[i].edits@.len() ==> (match (
            #[trigger] documents@[i].edits@[k]) {
                OneOf::Left(text_edit) => plan(edit)[i]->edits[k] == text_edit,
                OneOf::Right(annotated) => plan(edit)[i]->edits[k] == annotated.text_edit,
            }),
{
}

/// Every operation of a list is planned, in order: a change to the files as it is,
/// and the edits to a document as they would be on their own.
pub proof fn law_every_operation_is_planned(
    edit: WorkspaceEdit,
    operations: Vec<DocumentChangeOperation>,
)
    requires
        edit.changes is None,
        edit.document_changes == Some(DocumentChanges::Operations(operations)),
    ensures
        plan(edit).len() == operations@.len(),
        forall|i: int|
            0 <= i < operations@.len() ==> (match #[trigger] operations@[i] {
                DocumentChangeOperation::Op(op) => plan(edit)[i] == TaskView::Resource(op),
                DocumentChangeOperation::Edit(document) => {
                    &&& plan(edit)[i] is Edits
                    &&& plan(edit)[i]->uri == document.uri
                    &&& plan(edit)[i]->edits.len() == document.edits@.len()
                    &&& forall|k: int|
                        0 <= k < document.edits@.len() ==> (match #[trigger] document.edits@[k] {
                            OneOf::Left(text_edit) => plan(edit)[i]->edits[k] == text_edit,
                            OneOf::Right(annotated) => plan(edit)[i]->edits[k]
                                == annotated.text_edit,
                        })
                },
            }),
{
}

/// An edit that holds no changes of any form asks for nothing.
pub proof fn law_nothing_asked_nothing_planned(edit: WorkspaceEdit)
    requires
        edit.changes is None,
        edit.document_changes is None,
    ensures
        plan(edit).len() == 0,
{
}

/// The view of a run shows everything that the run holds.
pub proof fn law_run_view_is_faithful(run: EditRun)
    ensures
        run@.offset_encoding == run.offset_encoding,
        run@.pending.len() == run.pending@.len(),
        forall|i: int|
            0 <= i < run.pending@.len() ==> (match #[trigger] run.pending@[i] {
                Task::Edits { uri, edits } => run@.pending[i] is Edits && run@.pending[i]->uri
                    == uri && run@.pending[i]->edits == edits@,
                Task::Resource(op) => run@.pending[i] == TaskView::Resource(op),
            }),
        match run.opening {
            Some(opening) => {
                &&& run@.opening is Some
                &&& (run@.opening->0).uri == opening.uri
                &&& (run@.opening->0).edits == opening.edits@
                &&& (run@.opening->0).current_view == opening.current_view
            },
            None => run@.opening is None,
        },
{
}

/// The view of a step shows everything that the step says.
pub proof fn law_step_view_is_faithful(step: EditStep)
    ensures
        match step {
            EditStep::Done => step@ is Done,
            EditStep::SetError(message) => step@ == StepView::SetError(message@),
            EditStep::Open(path) => step@ == StepView::Open(path),
            EditStep::Apply { document, view, edits, offset_encoding } => {
                &&& step@ is Apply
                &&& step@->document == document
                &&& step@->view == view
                &&& step@->Apply_edits == edits@
                &&& step@->offset_encoding == offset_encoding
            },
            EditStep::Resource(op) => step@ == StepView::Resource(op),
        },
{
}

/// What opening a document came to is read as it is.
pub proof fn law_outcome_view_is_faithful(outcome: Result<Opened, String>)
    ensures
        match outcome {
            Ok(opened) => outcome_view(outcome) == Ok::<(u64, Seq<u64>), Seq<char>>(
                (opened.document, opened.views@),
            ),
            Err(reason) => outcome_view(outcome) == Err::<(u64, Seq<u64>), Seq<char>>(reason@),
        },
{
}

/// The edits of a task reach the document that opens for them, all of them and as
/// they were given, in the encoding of the run, and in the view that has the focus
/// wherever that view shows the document. The task is then done, and no other is.
pub proof fn law_edits_reach_their_document(
    run: RunView,
    current_view: u64,
    path: PathBuf,
    document: u64,
    views: Seq<u64>,
)
    requires
        run.opening is None,
        run.pending.len() > 0,
        run.pending[0] is Edits,
    ensures
        ({
            let (begun, first) = advanced(run, current_view, Some(path));
            let (ready, second) = answered(begun, Ok((document, views)));
            &&& first == StepView::Open(path)
            &&& begun.opening is Some
            &&& second is Apply
            &&& second->document == document
            &&& second->Apply_edits == run.pending[0]->edits
            &&& second->offset_encoding == run.offset_encoding
            &&& views.contains(current_view) ==> second->view == current_view
            &&& !views.contains(current_view) ==> second->view == views[0]
            &&& ready.opening is None
            &&& ready.pending == run.pending.skip(1)
            &&& ready.offset_encoding == run.offset_encoding
        }),
{
}

/// A document that cannot be reached is reported with its address, and with the
/// reason where there is one; its task is then done, and no other is.
pub proof fn law_unreachable_document_is_reported(
    run: RunView,
    current_view: u64,
    path: PathBuf,
    reason: Seq<char>,
)
    requires
        run.opening is None,
        run.pending.len() > 0,
        run.pending[0] is Edits,
    ensures
        ({
            let uri = run.pending[0]->uri;
            let (rest, told) = advanced(run, current_view, None);
            let (begun, first) = advanced(run, current_view, Some(path));
            let (ready, second) = answered(begun, Err(reason));
            &&& told == StepView::SetError("unable to convert URI to filepath: "@ + uri.text@)
            &&& rest.opening is None
            &&& rest.pending == run.pending.skip(1)
            &&& second == StepView::SetError(
                "failed to open document: "@ + uri.text@ + ": "@ + reason,
            )
            &&& ready.opening is None
            &&& ready.pending == run.pending.skip(1)
        }),
{
}

/// A change to the files is handed out as it was given, and its task is then done.
pub proof fn law_file_change_is_handed_out(
    run: RunView,
    op: ResourceOp,
    current_view: u64,
    path: Option<PathBuf>,
)
    requires
        run.opening is None,
        run.pending.len() > 0,
        run.pending[0] == TaskView::Resource(op),
    ensures
        advanced(run, current_view, path).1 == StepView::Resource(op),
        advanced(run, current_view, path).0.pending == run.pending.skip(1),
        advanced(run, current_view, path).0.opening is None,
{
}

/// A run without tasks is done, and a run with tasks is not.
pub proof fn law_done_only_at_the_end(run: RunView, current_view: u64, path: Option<PathBuf>)
    requires
        run.opening is None,
    ensures
        advanced(run, current_view, path).1 is Done <==> run.pending.len() == 0,
        run.pending.len() == 0 ==> advanced(run, current_view, path).0 == run,
{
}

/// The paths of an operation are those of its own addresses: the one that is
/// written or taken away, and in a rename the one that is moved, which are never
/// mixed up. Every address that the operation has must give a path.
pub proof fn law_paths_are_not_mixed_up(
    op: ResourceOp,
    from: Option<PathBuf>,
    target: Option<PathBuf>,
)
    ensures
        match op {
            ResourceOp::Create { uri, options } => target_uri(op) == uri,
            ResourceOp::Rename { old_uri, new_uri, options } => target_uri(op) == new_uri,
            ResourceOp::Delete { uri, delete_options } => target_uri(op) == uri,
        },
        paths_of(op, from, target) is Some <==> target is Some && (op is Rename ==> from is Some),
        paths_of(op, from, target) matches Some(paths) ==> Some(paths.target) == target,
        paths_of(op, from, target) matches Some(paths) ==> (if op is Rename {
            paths.from == from
        } else {
            paths.from is None
        }),
{
}

/// A creation writes an empty file at its path, and before that the directory of
/// the path where it is missing, unless the file is there and is to be ignored and
/// not overwritten. It does nothing else.
pub proof fn law_creation(
    uri: Uri,
    options: Option<WriteOptions>,
    from: Option<PathBuf>,
    facts: FileFacts,
)
    ensures
        ({
            let actions = file_actions(ResourceOp::Create { uri, options }, from, facts);
            let ignored = options is Some && options->0.ignore_if_exists == Some(true)
                && options->0.overwrite != Some(true);
            if ignored && facts.exists {
                actions.len() == 0
            } else {
                match facts.parent {
                    Some((dir, false)) => {
                        &&& actions.len() == 2
                        &&& actions[0] == FileAction::CreateDirAll(dir)
                        &&& actions[1] == FileAction::WriteEmpty(facts.path)
                    },
                    _ => actions.len() == 1 && actions[0] == FileAction::WriteEmpty(facts.path),
                }
            }
        }),
{
}

/// A creation that is not ignored leaves an empty file in a directory that is
/// there, whatever file was at the path before.
pub proof fn law_creation_leaves_an_empty_file(
    uri: Uri,
    options: Option<WriteOptions>,
    from: Option<PathBuf>,
    path: PathBuf,
    parent: Option<PathBuf>,
    disk: Disk,
)
    requires
        !(disk.target is Directory),
        disk.target is File || parent is None ==> disk.parent_is_there,
        disk.target is Missing || options is None || options->0.overwrite == Some(true)
            || options->0.ignore_if_exists != Some(true),
    ensures
        performed_all(
            disk,
            file_actions(
                ResourceOp::Create { uri, options },
                from,
                facts_of(disk, path, parent),
            ),
        ) == Some(Disk { target: Entry::File { content: Seq::empty() }, parent_is_there: true }),
{
    reveal_with_fuel(performed_all, 3);
}

/// A deletion takes away what is at its path, and nothing else: a directory with
/// what is in it where that is asked for, and else only by itself; a file; and
/// nothing where nothing is there.
pub proof fn law_deletion(
    uri: Uri,
    delete_options: Option<DeleteOptions>,
    from: Option<PathBuf>,
    facts: FileFacts,
)
    ensures
        ({
            let actions = file_actions(ResourceOp::Delete { uri, delete_options }, from, facts);
            let recursive = delete_options is Some && delete_options->0.recursive == Some(true);
            &&& actions.len() == (if facts.is_dir || facts.is_file {
                1int
            } else {
                0int
            })
            &&& facts.is_dir && recursive ==> actions[0] == FileAction::RemoveDirAll(facts.path)
            &&& facts.is_dir && !recursive ==> actions[0] == FileAction::RemoveDir(facts.path)
            &&& !facts.is_dir && facts.is_file ==> actions[0] == FileAction::RemoveFile(facts.path)
        }),
{
}

/// A rename moves the old path to the new one, and does nothing else, unless the
/// new path is there and is to be ignored and not overwritten.
pub proof fn law_rename(
    old_uri: Uri,
    new_uri: Uri,
    options: Option<WriteOptions>,
    from: PathBuf,
    facts: FileFacts,
)
    ensures
        ({
            let op = ResourceOp::Rename { old_uri, new_uri, options };
            let actions = file_actions(op, Some(from), facts);
            let ignored = options is Some && options->0.ignore_if_exists == Some(true)
                && options->0.overwrite != Some(true);
            if ignored && facts.exists {
                actions.len() == 0
            } else {
                actions.len() == 1 && actions[0] == (FileAction::Rename { from, to: facts.path })
            }
        }),
{
}

/// Edits are made in the view that has the focus wherever it shows the document,
/// and else in the first view that does.
pub proof fn law_focused_view_is_preferred(current_view: u64, views: Seq<u64>)
    ensures
        views.contains(current_view) ==> edit_view(current_view, views) == current_view,
        !views.contains(current_view) ==> edit_view(current_view, views) == views[0],
{
}

/// A run that is given up has nothing left to do and opens nothing.
pub proof fn law_abandoned_run_is_empty(run: RunView)
    ensures
        abandoned(run).pending.len() == 0,
        abandoned(run).opening is None,
        abandoned(run).offset_encoding == run.offset_encoding,
{
}

/// The messages about a document that cannot be reached name its address.
pub proof fn law_messages_name_the_document(uri: Uri, reason: Seq<char>)
    ensures
        no_path_message(uri) == "unable to convert URI to filepath: "@ + uri.text@,
        no_document_message(uri, reason) == "failed to open document: "@ + uri.text@ + ": "@
            + reason,
{
}

} // verus!
