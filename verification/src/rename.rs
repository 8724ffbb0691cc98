//! Renaming the symbol under the cursor.

use crate::actions::PromptEvent;
use crate::editor::{
    asked, first_with, no_server_with_feature_message, position_request, pushed, request_at_cursor,
    shows, told, Callback, Context, Editor, Layer, LanguageServerFeature, Prompt, Severity,
};
use crate::edits::{apply_workspace_edit, plan, EditRun, RunView};
use crate::protocol::{OffsetEncoding, WorkspaceEdit};
use crate::selection::Range;
use vstd::prelude::*;

verus! {

/// The stretch whose text the question is filled in with: the selection, where
/// it is longer than one character, and else the word under the cursor.
pub open spec fn prefill(selection: Range, word: Range) -> Range {
    if selection.end() - selection.start() > 1 {
        selection
    } else {
        word
    }
}

/// Asks the user for the new name. `word` is the word under the cursor.
pub fn rename_symbol(cx: &mut Context, word: Range)
    ensures
        pushed(*old(cx), *final(cx), final(cx).layers@.last()),
        final(cx).layers@.last() matches Layer::Rename(prompt) && prompt.prompt@ == "rename-to:"@
            && prompt.prefill == prefill(old(cx).editor.doc.selection, word),
{
    let selection = cx.editor.doc.selection;
    let filled = if selection.len() > 1 {
        selection
    } else {
        word
    };
    cx.layers.push(Layer::Rename(Prompt { prompt: "rename-to:".to_owned(), prefill: filled }));
}

/// Whether `after` is `before` once the first server with the feature was asked
/// for a new name of the symbol under the cursor, or the user was told that there
/// is none.
pub open spec fn asks_to_rename(before: Context, after: Context, new_name: Seq<char>) -> bool {
    match first_with(before.editor.doc, LanguageServerFeature::RenameSymbol) {
        Some(server) => {
            &&& asked(before, after, after.callbacks@.last())
            &&& after.callbacks@.last() matches Callback::RenameSymbol { request, new_name: name }
                && request == position_request(before.editor.doc, server) && name@ == new_name
        },
        None => told(before, after, Severity::Info, no_server_with_feature_message()),
    }
}

/// Takes what the user did with the question. A name that is given is sent to
/// the first server with the feature.
pub fn rename_event(cx: &mut Context, input: &str, event: PromptEvent)
    ensures
        match event {
            PromptEvent::Validate => asks_to_rename(*old(cx), *final(cx), input@),
            _ => *final(cx) == *old(cx),
        },
{
    if event != PromptEvent::Validate {
        return;
    }
    if let Some(server) = cx.language_server_with_feature(LanguageServerFeature::RenameSymbol) {
        let request = request_at_cursor(&cx.editor.doc, &server);
        cx.callbacks.push(Callback::RenameSymbol { request, new_name: input.to_owned() });
    }
}

/// Takes the answer: an edit, which is to be carried out, or an error, which the
/// user sees.
pub fn rename_answered(
    editor: &mut Editor,
    answer: Result<WorkspaceEdit, String>,
    offset_encoding: OffsetEncoding,
) -> (run: Option<EditRun>)
    ensures
        match answer {
            Ok(edit) => {
                &&& run matches Some(run) && run@ == (RunView {
                    offset_encoding,
                    pending: plan(edit),
                    opening: None,
                })
                &&& *final(editor) == *old(editor)
            },
            Err(error) => run is None && shows(
                *old(editor),
                *final(editor),
                Severity::Error,
                error@,
            ),
        },
{
    match answer {
        Ok(edit) => Some(apply_workspace_edit(offset_encoding, &edit)),
        Err(error) => {
            editor.set_error(error);
            None
        },
    }
}

/// The question is filled in with the selection where it is longer than one
/// character, whichever end the cursor is at, and else with the word under the
/// cursor.
pub proof fn law_question_is_filled_in(selection: Range, word: Range)
    ensures
        selection.anchor > selection.head + 1 || selection.head > selection.anchor + 1 ==> prefill(
            selection,
            word,
        ) == selection,
        selection.anchor <= selection.head + 1 && selection.head <= selection.anchor + 1
            ==> prefill(selection, word) == word,
{
}

/// The name that the user gives is sent, as it is, to the first server that can
/// rename, about the place of the cursor as that server counts it, and nothing else
/// changes. Where no server can, the user is told so.
pub proof fn law_given_name_is_sent(before: Context, after: Context, new_name: Seq<char>)
    requires
        asks_to_rename(before, after, new_name),
    ensures
        after.layers == before.layers,
        match first_with(before.editor.doc, LanguageServerFeature::RenameSymbol) {
            Some(server) => {
                let sent = after.callbacks@.last();
                &&& after.editor == before.editor
                &&& after.callbacks@.len() == before.callbacks@.len() + 1
                &&& after.callbacks@.drop_last() =~= before.callbacks@
                &&& sent is RenameSymbol
                &&& sent->new_name@ == new_name
                &&& sent->RenameSymbol_request.server == server.id
                &&& sent->RenameSymbol_request.offset_encoding == server.offset_encoding
                &&& sent->RenameSymbol_request.document == before.editor.doc.identifier
                &&& sent->RenameSymbol_request.position == before.editor.doc.position.at(
                    server.offset_encoding,
                )
            },
            None => {
                &&& after.callbacks == before.callbacks
                &&& after.editor.status_msg is Some
                &&& (after.editor.status_msg->0).severity is Info
                &&& (after.editor.status_msg->0).text@
                    == "Language server not active for current buffer or no language server supports this feature"@
            },
        },
{
}

} // verus!
