use lsp_commands::edits::{
    apply_document_resource_op, apply_workspace_edit, choose_view, gather_paths, resource_paths,
    EditStep, FileAction, FileFacts, Opened, ResourcePaths,
};
use lsp_commands::protocol::{
    AnnotatedTextEdit, DeleteOptions, DocumentChangeOperation, DocumentChanges, LspRange,
    OffsetEncoding, OneOf, Position, ResourceOp, TextDocumentEdit, TextEdit, Uri, WorkspaceEdit,
    WriteOptions,
};
use std::path::PathBuf;

fn uri(text: &str) -> Uri {
    Uri { text: text.to_owned() }
}

fn text_edit(line: u32, new_text: &str) -> TextEdit {
    let at = Position { line, character: 0 };
    TextEdit { range: LspRange { start: at, end: at }, new_text: new_text.to_owned() }
}

fn document_edit(text: &str, lines: &[u32]) -> TextDocumentEdit {
    let edits = lines
        .iter()
        .map(|line| {
            if line % 2 == 0 {
                OneOf::Left(text_edit(*line, "even"))
            } else {
                OneOf::Right(AnnotatedTextEdit {
                    text_edit: text_edit(*line, "odd"),
                    annotation_id: "note".to_owned(),
                })
            }
        })
        .collect();
    TextDocumentEdit { uri: uri(text), version: Some(1), edits }
}

fn create(text: &str, options: Option<WriteOptions>) -> ResourceOp {
    ResourceOp::Create { uri: uri(text), options }
}

fn write_options(overwrite: Option<bool>, ignore_if_exists: Option<bool>) -> Option<WriteOptions> {
    Some(WriteOptions { overwrite, ignore_if_exists })
}

#[test]
fn plain_changes_come_before_all_others() {
    let edit = WorkspaceEdit {
        changes: Some(vec![(uri("file:///a"), vec![text_edit(1, "x"), text_edit(2, "y")])]),
        document_changes: Some(DocumentChanges::Edits(vec![document_edit("file:///b", &[1])])),
    };
    let mut run = apply_workspace_edit(OffsetEncoding::Utf16, &edit);
    assert_eq!(run.advance(7), EditStep::Open(PathBuf::from("/a")));
    let step = run.opened(Ok(Opened { document: 3, views: vec![5, 7] }));
    assert_eq!(
        step,
        EditStep::Apply {
            document: 3,
            view: 7,
            edits: vec![text_edit(1, "x"), text_edit(2, "y")],
            offset_encoding: OffsetEncoding::Utf16,
        }
    );
    assert_eq!(run.advance(7), EditStep::Done);
    assert_eq!(run.advance(7), EditStep::Done);
}

#[test]
fn an_empty_list_of_plain_changes_still_counts() {
    let edit = WorkspaceEdit {
        changes: Some(vec![]),
        document_changes: Some(DocumentChanges::Edits(vec![document_edit("file:///b", &[1])])),
    };
    let mut run = apply_workspace_edit(OffsetEncoding::Utf8, &edit);
    assert_eq!(run.advance(0), EditStep::Done);
}

#[test]
fn annotations_are_dropped() {
    let edit = WorkspaceEdit {
        changes: None,
        document_changes: Some(DocumentChanges::Edits(vec![document_edit(
            "file:///dir/b%20c",
            &[2, 3],
        )])),
    };
    let mut run = apply_workspace_edit(OffsetEncoding::Utf32, &edit);
    assert_eq!(run.advance(1), EditStep::Open(PathBuf::from("/dir/b c")));
    let step = run.opened(Ok(Opened { document: 9, views: vec![4, 2] }));
    assert_eq!(
        step,
        EditStep::Apply {
            document: 9,
            view: 4,
            edits: vec![text_edit(2, "even"), text_edit(3, "odd")],
            offset_encoding: OffsetEncoding::Utf32,
        }
    );
}

#[test]
fn failures_do_not_stop_the_rest() {
    let op = create("file:///new", None);
    let edit = WorkspaceEdit {
        changes: None,
        document_changes: Some(DocumentChanges::Operations(vec![
            DocumentChangeOperation::Edit(document_edit("mailto:someone", &[0])),
            DocumentChangeOperation::Edit(document_edit("file:///gone", &[0])),
            DocumentChangeOperation::Op(create("file:///new", None)),
            DocumentChangeOperation::Edit(document_edit("file:///here", &[4])),
        ])),
    };
    let mut run = apply_workspace_edit(OffsetEncoding::Utf8, &edit);
    assert_eq!(
        run.advance(1),
        EditStep::SetError("unable to convert URI to filepath: mailto:someone".to_owned())
    );
    assert_eq!(run.advance(1), EditStep::Open(PathBuf::from("/gone")));
    assert_eq!(
        run.opened(Err("no such file".to_owned())),
        EditStep::SetError("failed to open document: file:///gone: no such file".to_owned())
    );
    assert_eq!(run.advance(1), EditStep::Resource(op));
    assert_eq!(run.advance(1), EditStep::Open(PathBuf::from("/here")));
    let step = run.opened(Ok(Opened { document: 2, views: vec![1] }));
    assert_eq!(
        step,
        EditStep::Apply {
            document: 2,
            view: 1,
            edits: vec![text_edit(4, "even")],
            offset_encoding: OffsetEncoding::Utf8,
        }
    );
    assert_eq!(run.advance(1), EditStep::Done);
}

#[test]
fn an_edit_without_changes_does_nothing() {
    let edit = WorkspaceEdit { changes: None, document_changes: None };
    let mut run = apply_workspace_edit(OffsetEncoding::Utf8, &edit);
    assert_eq!(run.advance(1), EditStep::Done);
}

#[test]
fn the_view_with_the_focus_is_preferred() {
    assert_eq!(choose_view(3, &vec![1, 2, 3]), 3);
    assert_eq!(choose_view(4, &vec![1, 2, 3]), 1);
}

fn facts(path: &str, exists: bool, is_dir: bool, parent_is_there: bool) -> FileFacts {
    FileFacts {
        path: PathBuf::from(path),
        exists,
        is_dir,
        is_file: exists && !is_dir,
        parent: Some((PathBuf::from("/parent"), parent_is_there)),
    }
}

#[test]
fn files_are_created() {
    let path = PathBuf::from("/parent/f");
    let write = FileAction::WriteEmpty(path.clone());
    assert_eq!(
        apply_document_resource_op(&create("file:///parent/f", None), None, facts("/parent/f", false, false, true)),
        vec![FileAction::WriteEmpty(path.clone())]
    );
    assert_eq!(
        apply_document_resource_op(&create("file:///parent/f", None), None, facts("/parent/f", false, false, false)),
        vec![FileAction::CreateDirAll(PathBuf::from("/parent")), write]
    );
    let without_parent = FileFacts { parent: None, ..facts("/parent/f", false, false, false) };
    assert_eq!(
        apply_document_resource_op(&create("file:///parent/f", None), None, without_parent),
        vec![FileAction::WriteEmpty(path)]
    );
}

#[test]
fn existing_files_are_left_alone_where_asked() {
    let write = || vec![FileAction::WriteEmpty(PathBuf::from("/parent/f"))];
    let cases = [
        (None, false),
        (write_options(None, None), false),
        (write_options(None, Some(true)), true),
        (write_options(Some(false), Some(true)), true),
        (write_options(Some(true), Some(true)), false),
        (write_options(None, Some(false)), false),
        (write_options(Some(true), None), false),
    ];
    for (options, left_alone) in cases {
        let op = create("file:///parent/f", options);
        let actions = apply_document_resource_op(&op, None, facts("/parent/f", true, false, true));
        assert_eq!(actions, if left_alone { vec![] } else { write() });
        let actions = apply_document_resource_op(&op, None, facts("/parent/f", false, false, true));
        assert_eq!(actions, write());
        let op = ResourceOp::Rename { old_uri: uri("file:///o"), new_uri: uri("file:///parent/f"), options };
        let from = Some(PathBuf::from("/o"));
        let actions = apply_document_resource_op(&op, from, facts("/parent/f", true, false, true));
        let rename = FileAction::Rename { from: PathBuf::from("/o"), to: PathBuf::from("/parent/f") };
        assert_eq!(actions, if left_alone { vec![] } else { vec![rename] });
    }
}

#[test]
fn files_and_directories_are_deleted() {
    let delete = |recursive: Option<bool>| ResourceOp::Delete {
        uri: uri("file:///d"),
        delete_options: Some(DeleteOptions { recursive, ignore_if_not_exists: None }),
    };
    let d = || PathBuf::from("/d");
    let run = |op: &ResourceOp, facts: FileFacts| apply_document_resource_op(op, None, facts);
    assert_eq!(run(&delete(Some(true)), facts("/d", true, true, true)), vec![FileAction::RemoveDirAll(d())]);
    assert_eq!(run(&delete(Some(false)), facts("/d", true, true, true)), vec![FileAction::RemoveDir(d())]);
    assert_eq!(run(&delete(None), facts("/d", true, true, true)), vec![FileAction::RemoveDir(d())]);
    let plain = ResourceOp::Delete { uri: uri("file:///d"), delete_options: None };
    assert_eq!(run(&plain, facts("/d", true, true, true)), vec![FileAction::RemoveDir(d())]);
    assert_eq!(run(&delete(Some(true)), facts("/d", true, false, true)), vec![FileAction::RemoveFile(d())]);
    assert_eq!(run(&delete(Some(true)), facts("/d", false, false, true)), vec![]);
}

#[test]
fn paths_of_resource_operations() {
    assert_eq!(
        resource_paths(&create("file:///x%41", None)),
        Some(ResourcePaths { from: None, target: PathBuf::from("/xA") })
    );
    assert_eq!(resource_paths(&create("data:,x", None)), None);
    assert_eq!(resource_paths(&create("no address", None)), None);
    let rename = |old: &str, new: &str| ResourceOp::Rename {
        old_uri: uri(old),
        new_uri: uri(new),
        options: None,
    };
    assert_eq!(
        resource_paths(&rename("file:///o", "file:///n")),
        Some(ResourcePaths { from: Some(PathBuf::from("/o")), target: PathBuf::from("/n") })
    );
    assert_eq!(resource_paths(&rename("data:,x", "file:///n")), None);
    assert_eq!(resource_paths(&rename("file:///o", "data:,x")), None);
    let delete = ResourceOp::Delete { uri: uri("file://localhost/d"), delete_options: None };
    assert_eq!(
        resource_paths(&delete),
        Some(ResourcePaths { from: None, target: PathBuf::from("/d") })
    );
    assert_eq!(gather_paths(&delete, Some(PathBuf::from("/o")), None), None);
}

#[test]
fn a_second_time_changes_nothing_more() {
    let create = create("file:///parent/f", None);
    assert_eq!(
        apply_document_resource_op(&create, None, facts("/parent/f", true, false, true)),
        vec![FileAction::WriteEmpty(PathBuf::from("/parent/f"))]
    );
    for recursive in [None, Some(false), Some(true)] {
        let delete = ResourceOp::Delete {
            uri: uri("file:///d"),
            delete_options: Some(DeleteOptions { recursive, ignore_if_not_exists: None }),
        };
        let gone = facts("/d", false, false, true);
        assert_eq!(apply_document_resource_op(&delete, None, gone), vec![]);
    }
}

#[test]
fn a_failed_change_to_the_files_ends_the_run() {
    let edit = WorkspaceEdit {
        changes: None,
        document_changes: Some(DocumentChanges::Operations(vec![
            DocumentChangeOperation::Op(create("file:///new", None)),
            DocumentChangeOperation::Edit(document_edit("file:///here", &[4])),
        ])),
    };
    let mut run = apply_workspace_edit(OffsetEncoding::Utf8, &edit);
    assert_eq!(run.advance(1), EditStep::Resource(create("file:///new", None)));
    run.failed();
    assert_eq!(run.advance(1), EditStep::Done);
    let mut run = apply_workspace_edit(OffsetEncoding::Utf8, &edit);
    run.advance(1);
    assert_eq!(run.advance(1), EditStep::Open(PathBuf::from("/here")));
    run.failed();
    assert_eq!(run.advance(1), EditStep::Done);
}

#[test]
fn the_paths_of_a_rename_are_not_swapped() {
    let rename = ResourceOp::Rename {
        old_uri: uri("file:///old%20name"),
        new_uri: uri("file:///new%20name"),
        options: None,
    };
    let paths = resource_paths(&rename).unwrap();
    assert_eq!(
        apply_document_resource_op(&rename, paths.from, facts("/new name", false, false, true)),
        vec![FileAction::Rename {
            from: PathBuf::from("/old name"),
            to: PathBuf::from("/new name"),
        }]
    );
}
