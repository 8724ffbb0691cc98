//! What a server says of the text under the cursor.

use crate::editor::{
    asked, first_with, no_server_with_feature_message, position_request, request_at_cursor, told,
    Callback, Context, LanguageServerFeature, Severity,
};
use crate::popup::{passing, passing_popup, Popup, PopupId};
use crate::protocol::{HoverContents, MarkedString, MarkupContent};
use vstd::prelude::*;
use vstd::string::StringExecFns;

verus! {

/// Asks the first server with the feature about the text under the cursor.
pub fn hover(cx: &mut Context)
    ensures
        match first_with(old(cx).editor.doc, LanguageServerFeature::Hover) {
            Some(server) => asked(
                *old(cx),
                *final(cx),
                Callback::Hover(position_request(old(cx).editor.doc, server)),
            ),
            None => told(*old(cx), *final(cx), Severity::Info, no_server_with_feature_message()),
        },
{
    if let Some(server) = cx.language_server_with_feature(LanguageServerFeature::Hover) {
        let request = request_at_cursor(&cx.editor.doc, &server);
        cx.callbacks.push(Callback::Hover(request));
    }
}

/// A piece of hover text as Markdown: code in a language is fenced, unless the
/// language is Markdown itself.
pub open spec fn markdown(contents: MarkedString) -> Seq<char> {
    match contents {
        MarkedString::String(text) => text@,
        MarkedString::LanguageString { language, value } => if language@ == "markdown"@ {
            value@
        } else {
            "```"@ + language@ + "\n"@ + value@ + "\n```"@
        },
    }
}

/// A piece of hover text as Markdown.
pub fn marked_string_to_markdown(contents: MarkedString) -> (text: String)
    ensures
        text@ == markdown(contents),
{
    match contents {
        MarkedString::String(text) => text,
        MarkedString::LanguageString { language, value } => {
            if language == "markdown".to_owned() {
                value
            } else {
                let mut text = "```".to_owned();
                text.append(language.as_str());
                text.append("\n");
                text.append(value.as_str());
                text.append("\n```");
                text
            }
        },
    }
}

/// Pieces of hover text as Markdown, with an empty line between them.
pub open spec fn joined_markdown(pieces: Seq<MarkedString>) -> Seq<char>
    decreases pieces.len(),
{
    if pieces.len() == 0 {
        Seq::empty()
    } else if pieces.len() == 1 {
        markdown(pieces[0])
    } else {
        joined_markdown(pieces.drop_last()) + "\n\n"@ + markdown(pieces.last())
    }
}

/// Hover text as Markdown.
pub open spec fn hover_markdown(contents: HoverContents) -> Seq<char> {
    match contents {
        HoverContents::Scalar(contents) => markdown(contents),
        HoverContents::Array(pieces) => joined_markdown(pieces@),
        HoverContents::Markup(contents) => contents.value@,
    }
}

/// Hover text as Markdown.
pub fn hover_text(contents: HoverContents) -> (text: String)
    ensures
        text@ == hover_markdown(contents),
{
    match contents {
        HoverContents::Scalar(contents) => marked_string_to_markdown(contents),
        HoverContents::Array(pieces) => {
            let ghost all = pieces@;
            let mut text = String::new();
            let mut first = true;
            assert(all.take(0) =~= Seq::empty());
            for piece in it: pieces
                invariant
                    it.seq() == all,
                    first == (it.index() == 0),
                    text@ == joined_markdown(all.take(it.index() as int)),
            {
                let ghost longer = all.take(it.index() + 1);
                assert(longer.drop_last() =~= all.take(it.index() as int));
                let shown = marked_string_to_markdown(piece);
                if first {
                    text = shown;
                    first = false;
                } else {
                    text.append("\n\n");
                    text.append(shown.as_str());
                }
                assert(longer.last() == piece);
            }
            assert(all.take(all.len() as int) =~= all);
            text
        },
        HoverContents::Markup(contents) => contents.value,
    }
}

/// Takes an answer: a popup with the Markdown to show, or nothing where there is
/// nothing to say. Empty text says nothing.
pub fn hover_answered(response: Option<HoverContents>) -> (popup: Option<Popup<String>>)
    ensures
        match response {
            Some(contents) if hover_markdown(contents).len() > 0 => popup matches Some(popup)
                && popup == passing(PopupId::Hover, popup.contents) && popup.contents@
                == hover_markdown(contents),
            _ => popup is None,
        },
{
    match response {
        Some(contents) => {
            let text = hover_text(contents);
            if text.as_str().is_empty() {
                None
            } else {
                Some(passing_popup(PopupId::Hover, text))
            }
        },
        None => None,
    }
}

/// Markdown is shown as it is, however a server sends it.
pub proof fn law_markdown_is_kept(language: String, value: String)
    requires
        language@ == "markdown"@,
    ensures
        markdown(MarkedString::LanguageString { language, value }) == value@,
        markdown(MarkedString::String(value)) == value@,
{
}

/// A list with one piece shows what the piece alone shows.
pub proof fn law_list_of_one(piece: MarkedString, pieces: Vec<MarkedString>)
    requires
        pieces@ == seq![piece],
    ensures
        hover_markdown(HoverContents::Array(pieces)) == hover_markdown(
            HoverContents::Scalar(piece),
        ),
{
}

/// A piece in any language but Markdown is shown between fences that name the
/// language, and nothing of it is lost.
pub proof fn law_code_is_fenced(language: String, value: String)
    requires
        language@ != "markdown"@,
    ensures
        markdown(MarkedString::LanguageString { language, value }) == "```"@ + language@ + "\n"@
            + value@ + "\n```"@,
{
}

/// Pieces are shown in order, with an empty line between any two of them.
pub proof fn law_pieces_are_joined(one: Seq<MarkedString>, other: Seq<MarkedString>)
    requires
        one.len() > 0,
        other.len() > 0,
    ensures
        joined_markdown(one + other) == joined_markdown(one) + "\n\n"@ + joined_markdown(other),
    decreases other.len(),
{
    let fewer = other.drop_last();
    assert((one + other).drop_last() =~= one + fewer);
    assert((one + other).last() == other.last());
    if other.len() == 1 {
        assert(one + fewer =~= one);
    } else {
        law_pieces_are_joined(one, fewer);
        assert(joined_markdown(one + other) =~= joined_markdown(one) + "\n\n"@ + joined_markdown(
            other,
        ));
    }
}

/// Hover text is what its piece or its pieces show, or the Markdown that the
/// server gives.
pub proof fn law_hover_text_is_kept(
    piece: MarkedString,
    pieces: Vec<MarkedString>,
    markup: MarkupContent,
)
    ensures
        hover_markdown(HoverContents::Scalar(piece)) == markdown(piece),
        hover_markdown(HoverContents::Markup(markup)) == markup.value@,
        joined_markdown(seq![piece]) == markdown(piece),
        hover_markdown(HoverContents::Array(pieces)) == joined_markdown(pieces@),
        pieces@.len() == 0 ==> hover_markdown(HoverContents::Array(pieces)).len() == 0,
        pieces@.len() == 1 ==> hover_markdown(HoverContents::Array(pieces)) == markdown(pieces@[0]),
        pieces@.len() == 2 ==> hover_markdown(HoverContents::Array(pieces)) == markdown(pieces@[0])
            + "\n\n"@ + markdown(pieces@[1]),
        pieces@.len() > 2 ==> hover_markdown(HoverContents::Array(pieces)) == joined_markdown(
            pieces@.drop_last(),
        ) + "\n\n"@ + markdown(pieces@.last()),
{
    reveal_with_fuel(joined_markdown, 2);
}

/// What a piece that is plain text shows is that text.
pub proof fn law_plain_text_is_kept(text: String)
    ensures
        markdown(MarkedString::String(text)) == text@,
{
}

} // verus!
