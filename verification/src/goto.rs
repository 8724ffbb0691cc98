//! Commands that lead to the definition of a symbol, or to its uses.

use crate::editor::{
    asked, first_with, law_first_server, no_server_with_feature_message, position_request,
    request_at_cursor, shows, told, Callback, Context, Editor, GotoKind, LanguageServerFeature,
    Severity,
};
use crate::foreign::may_give_path;
use crate::jump::{
    effect_views, gives_location, jump_to_location, location_start, Action, Effect, Goal, Jump,
};
use crate::protocol::{GotoDefinitionResponse, Location, LocationLink, OffsetEncoding};
use std::path::PathBuf;
use vstd::prelude::*;

verus! {

/// The place that a link leads to.
pub open spec fn link_target(link: LocationLink) -> Location {
    Location { uri: link.target_uri, range: link.target_range }
}

/// The locations of an answer, in order.
pub open spec fn answer_locations(definitions: Option<GotoDefinitionResponse>) -> Seq<Location> {
    match definitions {
        Some(GotoDefinitionResponse::Scalar(location)) => seq![location],
        Some(GotoDefinitionResponse::Array(locations)) => locations@,
        Some(GotoDefinitionResponse::Link(links)) => {
            links@.map_values(|link: LocationLink| link_target(link))
        },
        None => Seq::empty(),
    }
}

/// The locations of an answer, in order.
pub fn to_locations(definitions: Option<GotoDefinitionResponse>) -> (locations: Vec<Location>)
    ensures
        locations@ == answer_locations(definitions),
{
    match definitions {
        Some(GotoDefinitionResponse::Scalar(location)) => {
            let mut locations: Vec<Location> = Vec::new();
            locations.push(location);
            assert(locations@ =~= seq![location]);
            locations
        },
        Some(GotoDefinitionResponse::Array(locations)) => locations,
        Some(GotoDefinitionResponse::Link(links)) => {
            let mut locations: Vec<Location> = Vec::new();
            let ghost all = links@;
            for link in it: links
                invariant
                    it.seq() == all,
                    locations@.len() == it.index(),
                    forall|k: int|
                        0 <= k < it.index() ==> locations@[k] == link_target(#[trigger] all[k]),
            {
                locations.push(Location { uri: link.target_uri, range: link.target_range });
            }
            assert(locations@ =~= answer_locations(definitions));
            locations
        },
        None => Vec::new(),
    }
}

/// What is to be done with the locations of an answer.
#[derive(Debug, PartialEq, Eq)]
pub enum GotoOutcome {
    /// Nothing: there are none.
    Nothing,
    /// Jump to the only one.
    Jump(Jump, Vec<Effect>),
    /// Let the user choose one.
    Choose { locations: Vec<Location>, offset_encoding: OffsetEncoding },
}

/// Whether `outcome` is right for the locations of an answer: none is an error
/// that the user sees, one is jumped to at once, and of several the user chooses
/// one.
pub open spec fn right_outcome(
    before: Editor,
    after: Editor,
    locations: Seq<Location>,
    offset_encoding: OffsetEncoding,
    outcome: GotoOutcome,
) -> bool {
    if locations.len() == 0 {
        outcome is Nothing && shows(before, after, Severity::Error, "No definition found."@)
    } else if locations.len() == 1 {
        &&& after == before
        &&& outcome is Jump
        &&& exists|found: Option<(PathBuf, Seq<char>)>|
            {
                &&& (outcome->Jump_0@, effect_views(outcome->Jump_1@))
                    == #[trigger] location_start(
                    locations[0],
                    offset_encoding,
                    Action::Replace,
                    found,
                )
                &&& gives_location(locations[0].uri.text@, found)
            }
    } else {
        &&& after == before
        &&& outcome is Choose
        &&& outcome->locations@ == locations
        &&& outcome->offset_encoding == offset_encoding
    }
}

/// Takes the locations of an answer.
pub fn goto_impl(
    editor: &mut Editor,
    locations: Vec<Location>,
    offset_encoding: OffsetEncoding,
) -> (outcome: GotoOutcome)
    ensures
        right_outcome(*old(editor), *final(editor), locations@, offset_encoding, outcome),
{
    if locations.len() == 1 {
        let (jump, effects) = jump_to_location(&locations[0], offset_encoding, Action::Replace);
        GotoOutcome::Jump(jump, effects)
    } else if locations.len() == 0 {
        editor.set_error("No definition found.".to_owned());
        GotoOutcome::Nothing
    } else {
        GotoOutcome::Choose { locations, offset_encoding }
    }
}

/// Takes the answer to a request for a definition, a type definition or an
/// implementation.
pub fn definition_answered(
    editor: &mut Editor,
    response: Option<GotoDefinitionResponse>,
    offset_encoding: OffsetEncoding,
) -> (outcome: GotoOutcome)
    ensures
        right_outcome(
            *old(editor),
            *final(editor),
            answer_locations(response),
            offset_encoding,
            outcome,
        ),
{
    goto_impl(editor, to_locations(response), offset_encoding)
}

/// The locations of an answer with references.
pub open spec fn reference_locations(response: Option<Vec<Location>>) -> Seq<Location> {
    match response {
        Some(locations) => locations@,
        None => Seq::empty(),
    }
}

/// Takes the answer to a request for references.
pub fn references_answered(
    editor: &mut Editor,
    response: Option<Vec<Location>>,
    offset_encoding: OffsetEncoding,
) -> (outcome: GotoOutcome)
    ensures
        right_outcome(
            *old(editor),
            *final(editor),
            reference_locations(response),
            offset_encoding,
            outcome,
        ),
{
    let locations = match response {
        Some(locations) => locations,
        None => Vec::new(),
    };
    goto_impl(editor, locations, offset_encoding)
}

/// Whether `after` is `before` once the first server with `feature` was asked
/// about the place of the cursor, or the user was told that there is none.
pub open spec fn goto_asked(
    before: Context,
    after: Context,
    feature: LanguageServerFeature,
    kind: GotoKind,
) -> bool {
    match first_with(before.editor.doc, feature) {
        Some(server) => asked(
            before,
            after,
            Callback::Goto { kind, request: position_request(before.editor.doc, server) },
        ),
        None => told(before, after, Severity::Info, no_server_with_feature_message()),
    }
}

/// Asks the first server with `feature` about the place of the cursor.
fn ask_where(cx: &mut Context, feature: LanguageServerFeature, kind: GotoKind)
    ensures
        goto_asked(*old(cx), *final(cx), feature, kind),
{
    if let Some(server) = cx.language_server_with_feature(feature) {
        let request = request_at_cursor(&cx.editor.doc, &server);
        cx.callbacks.push(Callback::Goto { kind, request });
    }
}

/// Asks for the definition of the symbol under the cursor.
pub fn goto_definition(cx: &mut Context)
    ensures
        goto_asked(
            *old(cx),
            *final(cx),
            LanguageServerFeature::GotoDefinition,
            GotoKind::Definition,
        ),
{
    ask_where(cx, LanguageServerFeature::GotoDefinition, GotoKind::Definition)
}

/// Asks for the definition of the type of the symbol under the cursor.
pub fn goto_type_definition(cx: &mut Context)
    ensures
        goto_asked(
            *old(cx),
            *final(cx),
            LanguageServerFeature::GotoTypeDefinition,
            GotoKind::TypeDefinition,
        ),
{
    ask_where(cx, LanguageServerFeature::GotoTypeDefinition, GotoKind::TypeDefinition)
}

/// Asks for the implementation of the symbol under the cursor.
pub fn goto_implementation(cx: &mut Context)
    ensures
        goto_asked(
            *old(cx),
            *final(cx),
            LanguageServerFeature::GotoImplementation,
            GotoKind::Implementation,
        ),
{
    ask_where(cx, LanguageServerFeature::GotoImplementation, GotoKind::Implementation)
}

/// Asks for the uses of the symbol under the cursor.
pub fn goto_reference(cx: &mut Context)
    ensures
        goto_asked(
            *old(cx),
            *final(cx),
            LanguageServerFeature::GotoReference,
            GotoKind::Reference,
        ),
{
    ask_where(cx, LanguageServerFeature::GotoReference, GotoKind::Reference)
}

/// A request that is sent goes to a server of the document that has the
/// feature, and its position is counted in the encoding in which the answer will
/// be read.
pub proof fn law_request_suits_its_server(
    before: Context,
    after: Context,
    feature: LanguageServerFeature,
    kind: GotoKind,
)
    requires
        goto_asked(before, after, feature, kind),
        after.callbacks@.len() > before.callbacks@.len(),
    ensures
        after.callbacks@.last() matches Callback::Goto { kind: sent, request } && {
            &&& sent == kind
            &&& request.document == before.editor.doc.identifier
            &&& request.position == before.editor.doc.position.at(request.offset_encoding)
            &&& exists|i: int|
                0 <= i < before.editor.doc.language_servers@.len() && {
                    let server = #[trigger] before.editor.doc.language_servers@[i];
                    server.has(feature) && server.id == request.server && server.offset_encoding
                        == request.offset_encoding
                }
        },
{
    law_first_server(before.editor.doc, feature);
}

/// A command either sends one request and says nothing, or says why and sends
/// none.
pub proof fn law_asks_or_tells(
    before: Context,
    after: Context,
    feature: LanguageServerFeature,
    kind: GotoKind,
)
    requires
        goto_asked(before, after, feature, kind),
    ensures
        after.layers == before.layers,
        after.callbacks@.len() == before.callbacks@.len() + 1 && after.editor == before.editor
            || after.callbacks == before.callbacks && after.editor.status_msg is Some,
{
}

/// Every location of an answer is kept, in order, and a link leads to the whole
/// stretch that it points at.
pub proof fn law_answered_locations_are_kept(
    definitions: Option<GotoDefinitionResponse>,
    response: Option<Vec<Location>>,
)
    ensures
        match definitions {
            None => answer_locations(definitions).len() == 0,
            Some(GotoDefinitionResponse::Scalar(location)) => {
                &&& answer_locations(definitions).len() == 1
                &&& answer_locations(definitions)[0] == location
            },
            Some(GotoDefinitionResponse::Array(locations)) => answer_locations(definitions)
                == locations@,
            Some(GotoDefinitionResponse::Link(links)) => {
                &&& answer_locations(definitions).len() == links@.len()
                &&& forall|i: int|
                    0 <= i < links@.len() ==> (#[trigger] answer_locations(definitions)[i]).uri
                        == links@[i].target_uri && answer_locations(definitions)[i].range
                        == links@[i].target_range
            },
        },
        match response {
            None => reference_locations(response).len() == 0,
            Some(locations) => reference_locations(response) == locations@,
        },
{
}

/// Without a location the user sees an error and nothing else happens; the only
/// location is jumped to, in place of the present document; and of several the user
/// is offered all, in order.
pub proof fn law_locations_are_offered(
    before: Editor,
    after: Editor,
    locations: Seq<Location>,
    offset_encoding: OffsetEncoding,
    outcome: GotoOutcome,
)
    requires
        right_outcome(before, after, locations, offset_encoding, outcome),
    ensures
        locations.len() == 0 ==> {
            &&& outcome is Nothing
            &&& after.status_msg is Some
            &&& (after.status_msg->0).severity is Error
            &&& (after.status_msg->0).text@ == "No definition found."@
        },
        locations.len() == 1 ==> {
            let effects = effect_views(outcome->Jump_1@);
            &&& after == before
            &&& outcome is Jump
            &&& effects.len() == 2
            &&& effects[0] is PushJump
            &&& effects[1] is Open && may_give_path(
                locations[0].uri.text@,
                Some(effects[1]->path),
            ) && effects[1]->action is Replace || effects[1] is SetError && may_give_path(
                locations[0].uri.text@,
                None,
            )
            &&& effects[1] is Open ==> outcome->Jump_0@ is Opening && outcome->Jump_0@->goal
                == Goal::Point(locations[0].range.start) && outcome->Jump_0@->offset_encoding
                == offset_encoding
        },
        locations.len() > 1 ==> {
            &&& after == before
            &&& outcome is Choose
            &&& outcome->locations@ == locations
            &&& outcome->offset_encoding == offset_encoding
        },
{
}

/// A command tells the user in these words that no server can answer it.
pub proof fn law_missing_server_is_reported(
    before: Context,
    after: Context,
    feature: LanguageServerFeature,
    kind: GotoKind,
)
    requires
        goto_asked(before, after, feature, kind),
        forall|i: int|
            0 <= i < before.editor.doc.language_servers@.len() ==> !(
            #[trigger] before.editor.doc.language_servers@[i]).has(feature),
    ensures
        after.callbacks == before.callbacks,
        after.editor.status_msg is Some,
        (after.editor.status_msg->0).severity is Info,
        (after.editor.status_msg->0).text@
            == "Language server not active for current buffer or no language server supports this feature"@,
{
    law_first_server(before.editor.doc, feature);
}

/// Wherever a server of the document has the feature, the first that has it is
/// asked, once, about the place of the cursor as it counts it, and nothing else
/// changes.
pub proof fn law_first_server_is_asked(
    before: Context,
    after: Context,
    feature: LanguageServerFeature,
    kind: GotoKind,
    i: int,
)
    requires
        goto_asked(before, after, feature, kind),
        0 <= i < before.editor.doc.language_servers@.len(),
        before.editor.doc.language_servers@[i].has(feature),
        forall|k: int|
            0 <= k < i ==> !(#[trigger] before.editor.doc.language_servers@[k]).has(feature),
    ensures
        ({
            let server = before.editor.doc.language_servers@[i];
            let sent = after.callbacks@.last();
            &&& after.editor == before.editor
            &&& after.layers == before.layers
            &&& after.callbacks@.len() == before.callbacks@.len() + 1
            &&& after.callbacks@.drop_last() =~= before.callbacks@
            &&& sent is Goto
            &&& sent->kind == kind
            &&& sent->Goto_request.server == server.id
            &&& sent->Goto_request.offset_encoding == server.offset_encoding
            &&& sent->Goto_request.document == before.editor.doc.identifier
            &&& sent->Goto_request.position == before.editor.doc.position.at(
                server.offset_encoding,
            )
        }),
{
    law_first_server(before.editor.doc, feature);
}

} // verus!
