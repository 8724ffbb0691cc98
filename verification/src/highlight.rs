//! Selecting all uses of the symbol under the cursor.

use crate::editor::{
    asked, first_with, no_server_with_feature_message, position_request, request_at_cursor, told,
    Callback, Context, LanguageServerFeature, Severity,
};
use crate::protocol::{DocumentHighlight, LspRange};
use crate::selection::Range;
use vstd::prelude::*;

verus! {

/// Asks the first server with the feature for the uses of the symbol under the
/// cursor.
pub fn select_references_to_symbol_under_cursor(cx: &mut Context)
    ensures
        match first_with(old(cx).editor.doc, LanguageServerFeature::DocumentHighlight) {
            Some(server) => asked(
                *old(cx),
                *final(cx),
                Callback::DocumentHighlight(position_request(old(cx).editor.doc, server)),
            ),
            None => told(*old(cx), *final(cx), Severity::Info, no_server_with_feature_message()),
        },
{
    if let Some(server) = cx.language_server_with_feature(
        LanguageServerFeature::DocumentHighlight,
    ) {
        let request = request_at_cursor(&cx.editor.doc, &server);
        cx.callbacks.push(Callback::DocumentHighlight(request));
    }
}

/// The stretches of an answer that are to be looked up in the text, in order. An
/// answer without any selects nothing.
pub fn highlighted(response: Option<Vec<DocumentHighlight>>) -> (ranges: Option<Vec<LspRange>>)
    ensures
        match response {
            Some(highlights) if highlights@.len() > 0 => ranges is Some && ranges->0@
                == highlights@.map_values(|highlight: DocumentHighlight| highlight.range),
            _ => ranges is None,
        },
{
    let highlights = match response {
        Some(highlights) => highlights,
        None => return None,
    };
    if highlights.len() == 0 {
        return None;
    }
    let mut ranges: Vec<LspRange> = Vec::new();
    let mut i: usize = 0;
    while i < highlights.len()
        invariant
            i <= highlights@.len(),
            ranges@.len() == i,
            forall|k: int| 0 <= k < i ==> ranges@[k] == (#[trigger] highlights@[k]).range,
        decreases highlights@.len() - i,
    {
        ranges.push(highlights[i].range);
        i += 1;
    }
    assert(ranges@ =~= highlights@.map_values(|highlight: DocumentHighlight| highlight.range));
    Some(ranges)
}

/// A selection of several ranges.
#[derive(Debug, PartialEq, Eq)]
pub struct Selections {
    pub ranges: Vec<Range>,
    pub primary_index: usize,
}

/// The ranges that were found in the text, in order.
pub open spec fn found_ranges(resolved: Seq<Option<Range>>) -> Seq<Range>
    decreases resolved.len(),
{
    if resolved.len() == 0 {
        Seq::empty()
    } else {
        match resolved.last() {
            Some(range) => found_ranges(resolved.drop_last()).push(range),
            None => found_ranges(resolved.drop_last()),
        }
    }
}

/// Whether the primary range is the last one that holds the cursor, or the first
/// one of all where none does.
pub open spec fn is_primary(ranges: Seq<Range>, cursor: usize, primary_index: int) -> bool {
    ||| {
        &&& 0 <= primary_index < ranges.len()
        &&& ranges[primary_index].holds(cursor as int)
        &&& forall|k: int|
            primary_index < k < ranges.len() ==> !(#[trigger] ranges[k]).holds(cursor as int)
    }
    ||| {
        &&& primary_index == 0
        &&& forall|k: int| 0 <= k < ranges.len() ==> !(#[trigger] ranges[k]).holds(cursor as int)
    }
}

/// The selection of the uses that were found in the text. `resolved` holds, for
/// each stretch, what it is in the text, and `cursor` is where the primary
/// cursor is.
pub fn select_highlights(resolved: &Vec<Option<Range>>, cursor: usize) -> (selections: Selections)
    ensures
        selections.ranges@ == found_ranges(resolved@),
        is_primary(selections.ranges@, cursor, selections.primary_index as int),
{
    let mut ranges: Vec<Range> = Vec::new();
    let mut primary_index: usize = 0;
    let mut i: usize = 0;
    assert(resolved@.take(0) =~= Seq::empty());
    while i < resolved.len()
        invariant
            i <= resolved@.len(),
            ranges@ == found_ranges(resolved@.take(i as int)),
            is_primary(ranges@, cursor, primary_index as int),
        decreases resolved@.len() - i,
    {
        assert(resolved@.take(i + 1).drop_last() =~= resolved@.take(i as int));
        let ghost before = ranges@;
        if let Some(range) = resolved[i] {
            if range.contains(cursor) {
                primary_index = ranges.len();
            }
            ranges.push(range);
            assert(forall|k: int| 0 <= k < before.len() ==> ranges@[k] == #[trigger] before[k]);
        }
        i += 1;
    }
    assert(resolved@.take(resolved@.len() as int) =~= resolved@);
    Selections { ranges, primary_index }
}

/// The primary cursor does not leave the use that it is in: where any use holds
/// it, the primary one does.
pub proof fn law_primary_cursor_stays(ranges: Seq<Range>, cursor: usize, primary_index: int)
    requires
        is_primary(ranges, cursor, primary_index),
        exists|k: int| 0 <= k < ranges.len() && (#[trigger] ranges[k]).holds(cursor as int),
    ensures
        0 <= primary_index < ranges.len(),
        ranges[primary_index].holds(cursor as int),
{
}

/// As many ranges are selected as were found in the text, and each of them is.
pub proof fn law_every_use_is_selected(resolved: Seq<Option<Range>>)
    ensures
        found_ranges(resolved).len() <= resolved.len(),
        forall|i: int|
            0 <= i < resolved.len() && (#[trigger] resolved[i]) is Some ==> found_ranges(
                resolved,
            ).contains(resolved[i]->0),
    decreases resolved.len(),
{
    if resolved.len() > 0 {
        let fewer = resolved.drop_last();
        law_every_use_is_selected(fewer);
        let ranges = found_ranges(resolved);
        assert forall|i: int|
            0 <= i < resolved.len() && (#[trigger] resolved[i]) is Some implies ranges.contains(
            resolved[i]->0,
        ) by {
            if i < fewer.len() {
                assert(fewer[i] == resolved[i]);
                let at = choose|at: int|
                    0 <= at < found_ranges(fewer).len() && found_ranges(fewer)[at]
                        == resolved[i]->0;
                assert(ranges[at] == resolved[i]->0);
            } else {
                assert(ranges[ranges.len() - 1] == resolved[i]->0);
            }
        }
    }
}

/// The uses that are found are selected in order, each once, and what is not found
/// is left out.
pub proof fn law_uses_come_in_order(
    one: Seq<Option<Range>>,
    other: Seq<Option<Range>>,
    range: Range,
)
    ensures
        found_ranges(one + other) == found_ranges(one) + found_ranges(other),
        found_ranges(Seq::empty()).len() == 0,
        found_ranges(seq![Some(range)]) == seq![range],
        found_ranges(seq![None::<Range>]).len() == 0,
    decreases other.len(),
{
    assert(seq![Some(range)].drop_last() =~= Seq::empty());
    assert(seq![None::<Range>].drop_last() =~= Seq::empty());
    assert(found_ranges(seq![Some(range)].drop_last()) =~= Seq::empty());
    assert(found_ranges(seq![Some(range)]) =~= seq![range]);
    assert(found_ranges(seq![None::<Range>].drop_last()) =~= Seq::empty());
    if other.len() == 0 {
        assert(one + other =~= one);
        assert(found_ranges(one) + found_ranges(other) =~= found_ranges(one));
    } else {
        law_uses_come_in_order(one, other.drop_last(), range);
        assert((one + other).drop_last() =~= one + other.drop_last());
        assert(found_ranges(one + other) =~= found_ranges(one) + found_ranges(other));
    }
}

/// The primary use is the last one that the cursor is in, between its two ends,
/// and the first of all where the cursor is in none.
pub proof fn law_primary_use(ranges: Seq<Range>, cursor: usize, primary_index: int, k: int)
    requires
        is_primary(ranges, cursor, primary_index),
        0 <= k < ranges.len(),
        ranges[k].anchor <= cursor < ranges[k].head || ranges[k].head <= cursor < ranges[k].anchor,
    ensures
        k <= primary_index < ranges.len(),
        ranges[primary_index].anchor <= cursor < ranges[primary_index].head
            || ranges[primary_index].head <= cursor < ranges[primary_index].anchor,
{
    assert(ranges[k].holds(cursor as int));
}

/// Where the cursor is in no use, the first one is the primary one.
pub proof fn law_first_use_by_default(ranges: Seq<Range>, cursor: usize, primary_index: int)
    requires
        is_primary(ranges, cursor, primary_index),
        forall|k: int|
            0 <= k < ranges.len() ==> !((#[trigger] ranges[k]).anchor <= cursor < ranges[k].head)
                && !(ranges[k].head <= cursor < ranges[k].anchor),
    ensures
        primary_index == 0,
{
}

} // verus!
