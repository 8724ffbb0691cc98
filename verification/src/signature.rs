//! Help with the signature of the call that the cursor is in.

use crate::editor::{
    asked, first_with, no_server_message, position_request, request_at_cursor, server_by_id, told,
    Callback, Context, LanguageServerFeature, LspConfig, Severity,
};
use crate::popup::{Open, Popup, PopupId, ScreenPosition};
use crate::protocol::{
    Documentation, ParameterInformation, ParameterLabel, SignatureHelp, SignatureInformation,
};
use crate::text::{
    find, first_occurrence, law_first_occurrence_at_boundaries, law_utf16_byte_offset, occurs_at,
    text_view, utf16_byte_offset, utf16_to_byte_idx,
};
use vstd::prelude::*;
use vstd::utf8::{encode_utf8, is_char_boundary};

verus! {

/// Who asked for help: the user, or the editor by itself.
#[derive(Debug, Clone, Copy, PartialEq, Eq, Structural)]
pub enum SignatureHelpInvoked {
    Manual,
    Automatic,
}

/// Whether `after` is `before` once the server with the number `id` was asked. A
/// server that gives no such help is asked nothing.
pub open spec fn asked_by_id(
    before: Context,
    after: Context,
    id: usize,
    invoked: SignatureHelpInvoked,
) -> bool {
    match server_by_id(before.editor.language_servers@, id) {
        None => told(before, after, Severity::Info, no_server_message()),
        Some(server) => if server.answers_signature_help {
            asked(
                before,
                after,
                Callback::SignatureHelp {
                    request: position_request(before.editor.doc, server),
                    was_manually_invoked: invoked is Manual,
                },
            )
        } else {
            after == before
        },
    }
}

/// Whether `after` is `before` once the first server with the feature was asked.
/// Where there is none, only a user who asked is told.
pub open spec fn help_asked(before: Context, after: Context, invoked: SignatureHelpInvoked) -> bool {
    match first_with(before.editor.doc, LanguageServerFeature::SignatureHelp) {
        Some(server) => asked_by_id(before, after, server.id, invoked),
        None => if invoked is Manual {
            told(before, after, Severity::Info, no_server_message())
        } else {
            after == before
        },
    }
}

/// Asks for help because the user wants it.
pub fn signature_help(cx: &mut Context)
    ensures
        help_asked(*old(cx), *final(cx), SignatureHelpInvoked::Manual),
{
    signature_help_impl(cx, SignatureHelpInvoked::Manual)
}

/// Asks the first server with the feature for help.
pub fn signature_help_impl(cx: &mut Context, invoked: SignatureHelpInvoked)
    ensures
        help_asked(*old(cx), *final(cx), invoked),
{
    match cx.editor.doc.first_language_server(LanguageServerFeature::SignatureHelp) {
        Some(server) => signature_help_impl_with_language_server_id(cx, server.id, invoked),
        None => {
            if invoked == SignatureHelpInvoked::Manual {
                cx.editor.set_status("Language server not active for current buffer".to_owned());
            }
        },
    }
}

/// Asks the server with the number `language_server_id` for help.
pub fn signature_help_impl_with_language_server_id(
    cx: &mut Context,
    language_server_id: usize,
    invoked: SignatureHelpInvoked,
)
    ensures
        asked_by_id(*old(cx), *final(cx), language_server_id, invoked),
{
    let was_manually_invoked = invoked == SignatureHelpInvoked::Manual;
    if let Some(server) = cx.language_server_by_id(language_server_id) {
        if server.answers_signature_help {
            let request = request_at_cursor(&cx.editor.doc, &server);
            cx.callbacks.push(Callback::SignatureHelp { request, was_manually_invoked });
        }
    }
}

/// The signature of a call, as a popup shows it.
#[derive(Debug, PartialEq, Eq)]
pub struct SignatureContents {
    pub signature: String,
    pub language: String,
    pub signature_doc: Option<String>,
    /// The bytes of the signature that are the parameter under the cursor.
    pub active_param_range: Option<(usize, usize)>,
}

/// What an answer does to the screen.
#[derive(Debug, PartialEq, Eq)]
pub enum SignatureUpdate {
    Nothing,
    /// Take the popup with a signature away.
    Remove,
    /// Show the popup, in place of the one with a signature that is shown.
    Show(Popup<SignatureContents>),
}

/// The signature that an answer picks out, if it has it: the first by default.
pub open spec fn active_signature(response: SignatureHelp) -> Option<SignatureInformation> {
    let index = match response.active_signature {
        Some(index) => index as int,
        None => 0,
    };
    if index < response.signatures@.len() {
        Some(response.signatures@[index])
    } else {
        None
    }
}

/// The number of the parameter that the cursor is in: what the signature says,
/// or else the answer, or else the first.
pub open spec fn active_parameter_index(
    signature: SignatureInformation,
    response_parameter: Option<u32>,
) -> int {
    match (signature.active_parameter, response_parameter) {
        (Some(index), _) => index as int,
        (None, Some(index)) => index as int,
        (None, None) => 0,
    }
}

/// The parameter that the cursor is in, if the signature has it.
pub open spec fn active_parameter(
    signature: SignatureInformation,
    response_parameter: Option<u32>,
) -> Option<ParameterInformation> {
    let index = active_parameter_index(signature, response_parameter);
    match signature.parameters {
        Some(parameters) => if index < parameters@.len() {
            Some(parameters@[index])
        } else {
            None
        },
        None => None,
    }
}

/// Whether `range` holds the bytes of `label` that `parameter` stands for: the
/// first place of its text, or the stretch that it counts in UTF-16 units.
pub open spec fn stands_for(
    label: Seq<char>,
    parameter: ParameterLabel,
    range: Option<(usize, usize)>,
) -> bool {
    match parameter {
        ParameterLabel::Simple(text) => match range {
            Some((start, end)) => {
                &&& first_occurrence(encode_utf8(label), encode_utf8(text@), start as int)
                &&& end == start + encode_utf8(text@).len()
            },
            None => forall|at: int| !#[trigger] occurs_at(encode_utf8(label), encode_utf8(text@), at),
        },
        ParameterLabel::LabelOffsets { start, end } => {
            range matches Some((from, to)) && from == utf16_byte_offset(label, start as int)
                && to == utf16_byte_offset(label, end as int)
        },
    }
}

/// Whether `range` holds the bytes of the parameter that the cursor is in.
pub open spec fn is_active_range(
    signature: SignatureInformation,
    response_parameter: Option<u32>,
    range: Option<(usize, usize)>,
) -> bool {
    match active_parameter(signature, response_parameter) {
        Some(parameter) => stands_for(signature.label@, parameter.label, range),
        None => range is None,
    }
}

/// The bytes of the parameter that the cursor is in.
pub fn active_param_range(
    signature: &SignatureInformation,
    response_parameter: Option<u32>,
) -> (range: Option<(usize, usize)>)
    ensures
        is_active_range(*signature, response_parameter, range),
{
    let param_idx: usize = match signature.active_parameter {
        Some(index) => index as usize,
        None => match response_parameter {
            Some(index) => index as usize,
            None => 0,
        },
    };
    let parameters = match &signature.parameters {
        Some(parameters) => parameters,
        None => return None,
    };
    if param_idx >= parameters.len() {
        return None;
    }
    match &parameters[param_idx].label {
        ParameterLabel::Simple(text) => find(signature.label.as_str(), text.as_str()),
        ParameterLabel::LabelOffsets { start, end } => {
            let from: usize = utf16_to_byte_idx(signature.label.as_str(), *start as usize);
            let to: usize = utf16_to_byte_idx(signature.label.as_str(), *end as usize);
            Some((from, to))
        },
    }
}

/// The text of the documentation of a signature, where documentation is wanted
/// and there is any.
pub open spec fn documentation_text(
    documentation: Option<Documentation>,
    wanted: bool,
) -> Option<Seq<char>> {
    if wanted {
        match documentation {
            Some(Documentation::String(text)) => Some(text@),
            Some(Documentation::MarkupContent(markup)) => Some(markup.value@),
            None => None,
        }
    } else {
        None
    }
}

/// Whether `popup` is right for a signature: it is where the last one was, opens
/// above the cursor, and stays until there is nothing more to show.
pub open spec fn right_popup(
    popup: Popup<SignatureContents>,
    signature: SignatureInformation,
    response_parameter: Option<u32>,
    language: Seq<char>,
    docs_wanted: bool,
    old_position: Option<ScreenPosition>,
) -> bool {
    let contents = popup.contents;
    &&& contents.signature@ == signature.label@
    &&& contents.language@ == language
    &&& text_view(contents.signature_doc) == documentation_text(
        signature.documentation,
        docs_wanted,
    )
    &&& is_active_range(signature, response_parameter, contents.active_param_range)
    &&& popup.id is SignatureHelp
    &&& popup.position == old_position
    &&& popup.position_bias == Some(Open::Above)
    &&& popup.ignore_escape_key
    &&& !popup.auto_close
}

/// Whether an answer is still wanted: help comes by itself, or is shown already,
/// or the user asked for it.
pub open spec fn is_wanted(config: LspConfig, popup_is_visible: bool, manual: bool) -> bool {
    config.auto_signature_help || popup_is_visible || manual
}

/// Whether `update` is right for an answer.
pub open spec fn right_update(
    update: SignatureUpdate,
    config: LspConfig,
    response: Option<SignatureHelp>,
    language: Seq<char>,
    popup_is_visible: bool,
    was_manually_invoked: bool,
    old_position: Option<ScreenPosition>,
) -> bool {
    if !is_wanted(config, popup_is_visible, was_manually_invoked) {
        update is Nothing
    } else {
        match response {
            Some(help) if help.signatures@.len() > 0 => match active_signature(help) {
                Some(signature) => update matches SignatureUpdate::Show(popup) && right_popup(
                    popup,
                    signature,
                    help.active_parameter,
                    language,
                    config.display_signature_help_docs,
                    old_position,
                ),
                None => update is Nothing,
            },
            _ => update is Remove,
        }
    }
}

/// The name of a language, which may have none.
pub open spec fn language_text(language_name: Option<String>) -> Seq<char> {
    match language_name {
        Some(name) => name@,
        None => Seq::empty(),
    }
}

/// Takes an answer. `popup_is_visible` says whether a popup with a signature is
/// on the screen, and `old_position` where that popup is.
pub fn signature_help_answered(
    config: &LspConfig,
    response: Option<SignatureHelp>,
    language_name: Option<String>,
    popup_is_visible: bool,
    was_manually_invoked: bool,
    old_position: Option<ScreenPosition>,
) -> (update: SignatureUpdate)
    ensures
        right_update(
            update,
            *config,
            response,
            language_text(language_name),
            popup_is_visible,
            was_manually_invoked,
            old_position,
        ),
{
    if !(config.auto_signature_help || popup_is_visible || was_manually_invoked) {
        return SignatureUpdate::Nothing;
    }
    let help = match response {
        Some(help) => help,
        None => return SignatureUpdate::Remove,
    };
    if help.signatures.len() == 0 {
        return SignatureUpdate::Remove;
    }
    let language = match language_name {
        Some(name) => name,
        None => String::new(),
    };
    let index: usize = match help.active_signature {
        Some(index) => index as usize,
        None => 0,
    };
    if index >= help.signatures.len() {
        return SignatureUpdate::Nothing;
    }
    let signature = &help.signatures[index];
    let signature_doc = if config.display_signature_help_docs {
        match &signature.documentation {
            Some(Documentation::String(text)) => Some(text.clone()),
            Some(Documentation::MarkupContent(markup)) => Some(markup.value.clone()),
            None => None,
        }
    } else {
        None
    };
    let contents = SignatureContents {
        signature: signature.label.clone(),
        language,
        signature_doc,
        active_param_range: active_param_range(signature, help.active_parameter),
    };
    SignatureUpdate::Show(
        Popup {
            id: PopupId::SignatureHelp,
            contents,
            position: old_position,
            position_bias: Some(Open::Above),
            ignore_escape_key: true,
            auto_close: false,
        },
    )
}

/// The bytes of the parameter under the cursor lie in the label and are bounded
/// by characters. They are in order unless a server counts them backwards.
pub proof fn law_active_range_is_in_label(
    signature: SignatureInformation,
    response_parameter: Option<u32>,
    range: (usize, usize),
)
    requires
        is_active_range(signature, response_parameter, Some(range)),
    ensures
        range.0 <= encode_utf8(signature.label@).len(),
        range.1 <= encode_utf8(signature.label@).len(),
        is_char_boundary(encode_utf8(signature.label@), range.0 as int),
        is_char_boundary(encode_utf8(signature.label@), range.1 as int),
        active_parameter(signature, response_parameter)->0.label matches ParameterLabel::LabelOffsets {
            start,
            end,
        } && start > end || range.0 <= range.1,
{
    let label = signature.label@;
    match active_parameter(signature, response_parameter)->0.label {
        ParameterLabel::Simple(text) => {
            law_first_occurrence_at_boundaries(label, text@, range.0 as int);
        },
        ParameterLabel::LabelOffsets { start, end } => {
            law_utf16_byte_offset(label, start as int, start as int);
            law_utf16_byte_offset(label, end as int, end as int);
            if start <= end {
                law_utf16_byte_offset(label, start as int, end as int);
            }
        },
    }
}

/// Help that the editor asks for by itself never changes the status line, as
/// long as the servers of the document run.
pub proof fn law_automatic_help_is_silent(before: Context, after: Context)
    requires
        help_asked(before, after, SignatureHelpInvoked::Automatic),
        first_with(before.editor.doc, LanguageServerFeature::SignatureHelp) matches Some(server)
            ==> server_by_id(before.editor.language_servers@, server.id) is Some,
    ensures
        after.editor == before.editor,
{
}

/// An answer that nobody wants changes nothing, and any wanted answer without a
/// signature takes the popup away.
pub proof fn law_popup_goes_when_there_is_nothing_to_show(
    update: SignatureUpdate,
    config: LspConfig,
    response: Option<SignatureHelp>,
    language: Seq<char>,
    popup_is_visible: bool,
    was_manually_invoked: bool,
    old_position: Option<ScreenPosition>,
)
    requires
        right_update(
            update,
            config,
            response,
            language,
            popup_is_visible,
            was_manually_invoked,
            old_position,
        ),
        response is None || response->0.signatures@.len() == 0,
    ensures
        update is Remove <==> is_wanted(config, popup_is_visible, was_manually_invoked),
        !(update is Show),
{
}

/// The parameter that is shown is the one that the signature names; where it names
/// none, the one that the answer names; and where that names none either, the
/// first. Its bytes are the first place of its text, or what its offsets count, and
/// without such a parameter none are shown.
pub proof fn law_named_parameter_is_shown(
    signature: SignatureInformation,
    response_parameter: Option<u32>,
    named: int,
    range: Option<(usize, usize)>,
)
    requires
        is_active_range(signature, response_parameter, range),
        match (signature.active_parameter, response_parameter) {
            (Some(index), _) => named == index,
            (None, Some(index)) => named == index,
            (None, None) => named == 0,
        },
    ensures
        signature.parameters is None ==> range is None,
        signature.parameters matches Some(parameters) ==> {
            &&& named >= parameters@.len() ==> range is None
            &&& named < parameters@.len() ==> match parameters@[named].label {
                ParameterLabel::Simple(text) => match range {
                    Some((start, end)) => {
                        let label = encode_utf8(signature.label@);
                        let wanted = encode_utf8(text@);
                        &&& end == start + wanted.len()
                        &&& end <= label.len()
                        &&& label.subrange(start as int, end as int) == wanted
                        &&& forall|at: int|
                            0 <= at < start ==> #[trigger] label.subrange(
                                at,
                                at + wanted.len(),
                            ) != wanted
                    },
                    None => forall|at: int|
                        0 <= at <= encode_utf8(signature.label@).len() - encode_utf8(
                            text@,
                        ).len() ==> #[trigger] encode_utf8(signature.label@).subrange(
                            at,
                            at + encode_utf8(text@).len(),
                        ) != encode_utf8(text@),
                },
                ParameterLabel::LabelOffsets { start, end } => {
                    &&& range is Some
                    &&& (range->0).0 == utf16_byte_offset(signature.label@, start as int)
                    &&& (range->0).1 == utf16_byte_offset(signature.label@, end as int)
                },
            }
        },
{
    if let Some(parameters) = signature.parameters {
        if named < parameters@.len() {
            if let ParameterLabel::Simple(text) = parameters@[named].label {
                let label = encode_utf8(signature.label@);
                let wanted = encode_utf8(text@);
                match range {
                    Some((start, end)) => {
                        assert forall|at: int| 0 <= at < start implies #[trigger] label.subrange(
                            at,
                            at + wanted.len(),
                        ) != wanted by {
                            assert(!occurs_at(label, wanted, at));
                        }
                    },
                    None => {
                        assert forall|at: int|
                            0 <= at <= label.len() - wanted.len() implies #[trigger] label.subrange(
                            at,
                            at + wanted.len(),
                        ) != wanted by {
                            assert(!occurs_at(label, wanted, at));
                        }
                    },
                }
            }
        }
    }
}

/// The signature that is shown is the one that the answer names, or the first
/// where it names none; an answer that names one that it does not have shows none.
pub proof fn law_named_signature_is_active(response: SignatureHelp, named: int)
    requires
        match response.active_signature {
            Some(index) => named == index,
            None => named == 0,
        },
    ensures
        named < response.signatures@.len() ==> active_signature(response) == Some(
            response.signatures@[named],
        ),
        named >= response.signatures@.len() ==> active_signature(response) is None,
{
}

/// Documentation is shown as the server gives it, and only where it is wanted.
pub proof fn law_documentation_is_shown_where_wanted(documentation: Option<Documentation>, wanted: bool)
    ensures
        documentation_text(documentation, wanted) is Some <==> wanted && documentation is Some,
        wanted ==> match documentation {
            Some(Documentation::String(text)) => documentation_text(documentation, wanted) == Some(
                text@,
            ),
            Some(Documentation::MarkupContent(markup)) => documentation_text(documentation, wanted)
                == Some(markup.value@),
            None => true,
        },
{
}

/// A wanted answer shows the signature that it names, in the language of the
/// document, with its documentation where that is wanted, above the cursor, where
/// the last popup was, and until there is nothing more to show. An answer that
/// nobody wants, and one that names no signature that it has, shows nothing.
pub proof fn law_wanted_signature_is_shown(
    update: SignatureUpdate,
    config: LspConfig,
    help: SignatureHelp,
    language_name: Option<String>,
    popup_is_visible: bool,
    was_manually_invoked: bool,
    old_position: Option<ScreenPosition>,
    named: int,
)
    requires
        right_update(
            update,
            config,
            Some(help),
            language_text(language_name),
            popup_is_visible,
            was_manually_invoked,
            old_position,
        ),
        match help.active_signature {
            Some(index) => named == index,
            None => named == 0,
        },
    ensures
        !config.auto_signature_help && !popup_is_visible && !was_manually_invoked ==> update is Nothing,
        config.auto_signature_help || popup_is_visible || was_manually_invoked ==> {
            &&& help.signatures@.len() == 0 ==> update is Remove
            &&& 0 < help.signatures@.len() <= named ==> update is Nothing
            &&& named < help.signatures@.len() ==> update is Show && {
                let popup = update->Show_0;
                let signature = help.signatures@[named];
                &&& popup.contents.signature@ == signature.label@
                &&& popup.contents.language@ == (match language_name {
                    Some(name) => name@,
                    None => Seq::empty(),
                })
                &&& popup.contents.signature_doc is Some <==> config.display_signature_help_docs
                    && signature.documentation is Some
                &&& popup.contents.signature_doc matches Some(doc) ==> (
                match signature.documentation->0 {
                    Documentation::String(text) => doc@ == text@,
                    Documentation::MarkupContent(markup) => doc@ == markup.value@,
                })
                &&& is_active_range(
                    signature,
                    help.active_parameter,
                    popup.contents.active_param_range,
                )
                &&& popup.id is SignatureHelp
                &&& popup.position == old_position
                &&& popup.position_bias == Some(Open::Above)
                &&& popup.ignore_escape_key
                &&& !popup.auto_close
            }
        },
{
}

/// A server that runs and gives such help is asked once, about the place of the
/// cursor as it counts it; one that gives none is asked nothing; and where the
/// server does not run, the user is told.
pub proof fn law_signature_is_asked_of_its_server(
    before: Context,
    after: Context,
    id: usize,
    invoked: SignatureHelpInvoked,
)
    requires
        asked_by_id(before, after, id, invoked),
    ensures
        after.layers == before.layers,
        match server_by_id(before.editor.language_servers@, id) {
            None => {
                &&& after.callbacks == before.callbacks
                &&& after.editor.status_msg is Some
                &&& (after.editor.status_msg->0).severity is Info
                &&& (after.editor.status_msg->0).text@
                    == "Language server not active for current buffer"@
            },
            Some(server) => {
                &&& after.editor == before.editor
                &&& !server.answers_signature_help ==> after == before
                &&& server.answers_signature_help ==> {
                    let sent = after.callbacks@.last();
                    &&& after.callbacks@.len() == before.callbacks@.len() + 1
                    &&& after.callbacks@.drop_last() =~= before.callbacks@
                    &&& sent is SignatureHelp
                    &&& sent->was_manually_invoked == (invoked is Manual)
                    &&& sent->SignatureHelp_request.server == server.id
                    &&& sent->SignatureHelp_request.offset_encoding == server.offset_encoding
                    &&& sent->SignatureHelp_request.document == before.editor.doc.identifier
                    &&& sent->SignatureHelp_request.position == before.editor.doc.position.at(
                        server.offset_encoding,
                    )
                }
            },
        },
{
}

/// The first server of the document that has the feature is asked; where none has
/// it, a user who asked is told, and nobody else is.
pub proof fn law_signature_is_asked_of_the_first_server(
    before: Context,
    after: Context,
    invoked: SignatureHelpInvoked,
)
    requires
        help_asked(before, after, invoked),
    ensures
        match first_with(before.editor.doc, LanguageServerFeature::SignatureHelp) {
            Some(server) => asked_by_id(before, after, server.id, invoked),
            None => {
                &&& after.callbacks == before.callbacks
                &&& after.layers == before.layers
                &&& invoked is Automatic ==> after == before
                &&& invoked is Manual ==> after.editor.status_msg is Some
                    && (after.editor.status_msg->0).text@
                    == "Language server not active for current buffer"@
            },
        },
{
}

} // verus!
