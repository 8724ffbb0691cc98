//! Lists of the symbols of a document or of the workspace.

use crate::editor::{
    servers_with, Callback, Context, Document, LanguageServer, LanguageServerFeature,
};
use crate::protocol::{
    clone_url, DocumentSymbol, DocumentSymbolResponse, Location, OffsetEncoding, SymbolInformation,
    Uri,
};
use vstd::prelude::*;

verus! {

/// A symbol of the document at `file`, without the symbols inside it. Its place
/// is the one to select, and it names no container.
pub open spec fn flat_symbol(file: Uri, symbol: DocumentSymbol) -> SymbolInformation {
    SymbolInformation {
        name: symbol.name,
        kind: symbol.kind,
        tags: symbol.tags,
        deprecated: symbol.deprecated,
        location: Location { uri: file, range: symbol.selection_range },
        container_name: None,
    }
}

/// A symbol, then the symbols inside it, each followed by those inside it.
pub open spec fn flattened(file: Uri, symbol: DocumentSymbol) -> Seq<SymbolInformation>
    decreases symbol,
{
    seq![flat_symbol(file, symbol)] + match symbol.children {
        Some(children) => all_flattened(file, children@),
        None => Seq::empty(),
    }
}

/// The symbols of a list, each followed by those inside it.
pub open spec fn all_flattened(file: Uri, symbols: Seq<DocumentSymbol>) -> Seq<SymbolInformation>
    decreases symbols,
{
    if symbols.len() == 0 {
        Seq::empty()
    } else {
        all_flattened(file, symbols.drop_last()) + flattened(file, symbols.last())
    }
}

/// Adds a symbol of the document at `file` to `list`, and then the symbols
/// inside it.
pub fn nested_to_flat(list: &mut Vec<SymbolInformation>, file: &Uri, symbol: DocumentSymbol)
    ensures
        final(list)@ == old(list)@ + flattened(*file, symbol),
    decreases symbol,
{
    let ghost whole = symbol;
    list.push(
        SymbolInformation {
            name: symbol.name,
            kind: symbol.kind,
            tags: symbol.tags,
            deprecated: symbol.deprecated,
            location: Location { uri: file.clone(), range: symbol.selection_range },
            container_name: None,
        },
    );
    let ghost first = list@;
    if let Some(children) = symbol.children {
        let ghost all = children@;
        assert(all.take(0) =~= Seq::empty());
        for child in it: children
            invariant
                it.seq() == all,
                whole == symbol,
                whole.children is Some,
                whole.children->0@ == all,
                list@ == first + all_flattened(*file, all.take(it.index() as int)),
        {
            assert(child == all[it.index() as int]);
            assert(all.take(it.index() + 1).drop_last() =~= all.take(it.index() as int));
            assert(decreases_to!(whole => whole.children));
            assert(decreases_to!(whole.children => whole.children->0));
            assert(decreases_to!(whole.children->0 => whole.children->0@));
            assert(decreases_to!(all => all[it.index() as int]));
            nested_to_flat(list, file, child);
        }
        assert(all.take(all.len() as int) =~= all);
    }
}

/// The symbols of an answer, as a flat list. Servers have two ways to give them.
pub open spec fn response_symbols(response: DocumentSymbolResponse, file: Uri) -> Seq<
    SymbolInformation,
> {
    match response {
        DocumentSymbolResponse::Flat(symbols) => symbols@,
        DocumentSymbolResponse::Nested(symbols) => all_flattened(file, symbols@),
    }
}

/// The symbols of an answer about the document at `file`, as a flat list.
pub fn flat_symbols(response: DocumentSymbolResponse, file: &Uri) -> (list: Vec<SymbolInformation>)
    ensures
        list@ == response_symbols(response, *file),
{
    match response {
        DocumentSymbolResponse::Flat(symbols) => symbols,
        DocumentSymbolResponse::Nested(symbols) => {
            let mut list: Vec<SymbolInformation> = Vec::new();
            let ghost all = symbols@;
            assert(all.take(0) =~= Seq::empty());
            for symbol in it: symbols
                invariant
                    it.seq() == all,
                    list@ == all_flattened(*file, all.take(it.index() as int)),
            {
                assert(all.take(it.index() + 1).drop_last() =~= all.take(it.index() as int));
                nested_to_flat(&mut list, file, symbol);
            }
            assert(all.take(all.len() as int) =~= all);
            list
        },
    }
}

/// Symbols with the encoding in which their places are counted.
pub open spec fn in_encoding(symbols: Seq<SymbolInformation>, offset_encoding: OffsetEncoding) -> Seq<
    (SymbolInformation, OffsetEncoding),
> {
    symbols.map_values(|symbol: SymbolInformation| (symbol, offset_encoding))
}

/// Symbols with the encoding in which their places are counted.
fn with_encoding(symbols: Vec<SymbolInformation>, offset_encoding: OffsetEncoding) -> (list: Vec<
    (SymbolInformation, OffsetEncoding),
>)
    ensures
        list@ == in_encoding(symbols@, offset_encoding),
{
    let mut list: Vec<(SymbolInformation, OffsetEncoding)> = Vec::new();
    let ghost all = symbols@;
    for symbol in it: symbols
        invariant
            it.seq() == all,
            list@.len() == it.index(),
            forall|k: int| 0 <= k < it.index() ==> list@[k] == (#[trigger] all[k], offset_encoding),
    {
        list.push((symbol, offset_encoding));
    }
    assert(list@ =~= in_encoding(all, offset_encoding));
    list
}

/// A list of symbols to choose from.
#[derive(Debug, PartialEq, Eq)]
pub struct SymbolPicker {
    pub symbols: Vec<(SymbolInformation, OffsetEncoding)>,
    /// The address of the document that had the focus.
    pub current_path: Option<Uri>,
    /// Whether a label that is too long loses its start, and not its end.
    pub truncate_start: bool,
}

/// A list of symbols to choose from.
pub fn sym_picker(
    symbols: Vec<(SymbolInformation, OffsetEncoding)>,
    current_path: Option<Uri>,
) -> (picker: SymbolPicker)
    ensures
        picker.symbols == symbols,
        picker.current_path == current_path,
        !picker.truncate_start,
{
    SymbolPicker { symbols, current_path, truncate_start: false }
}

/// What an answer with symbols does to the screen.
#[derive(Debug, PartialEq, Eq)]
pub enum SymbolsUpdate {
    Nothing,
    /// Add the symbols to the list that is already shown.
    AddOptions(Vec<(SymbolInformation, OffsetEncoding)>),
    /// Show a list on top.
    Open(SymbolPicker),
}

/// Whether `update` is right for an answer with `symbols`. No answer changes
/// nothing; the symbols of an answer join the list that is shown, if there is
/// one, and else make a list.
pub open spec fn right_update(
    update: SymbolsUpdate,
    symbols: Option<Seq<(SymbolInformation, OffsetEncoding)>>,
    current_url: Option<Uri>,
    picker_is_open: bool,
) -> bool {
    match symbols {
        None => update is Nothing,
        Some(symbols) => if picker_is_open {
            update matches SymbolsUpdate::AddOptions(options) && options@ == symbols
        } else {
            update matches SymbolsUpdate::Open(picker) && picker.symbols@ == symbols
                && picker.current_path == current_url && !picker.truncate_start
        },
    }
}

/// Takes the symbols of an answer. `current_url` is the address of the document
/// that had the focus when they were asked for, and `picker_is_open` says
/// whether a list of symbols is shown.
fn update_picker(
    symbols: Vec<(SymbolInformation, OffsetEncoding)>,
    current_url: Option<Uri>,
    picker_is_open: bool,
) -> (update: SymbolsUpdate)
    ensures
        right_update(update, Some(symbols@), current_url, picker_is_open),
{
    if picker_is_open {
        SymbolsUpdate::AddOptions(symbols)
    } else {
        SymbolsUpdate::Open(sym_picker(symbols, current_url))
    }
}

/// The symbols of an answer about the document at `file`, with their encoding.
pub open spec fn document_answer(
    response: Option<DocumentSymbolResponse>,
    file: Uri,
    offset_encoding: OffsetEncoding,
) -> Option<Seq<(SymbolInformation, OffsetEncoding)>> {
    match response {
        None => None,
        Some(response) => Some(in_encoding(response_symbols(response, file), offset_encoding)),
    }
}

/// Takes an answer with the symbols of a document. `doc` is the document that
/// has the focus when the answer comes.
pub fn document_symbols_answered(
    response: Option<DocumentSymbolResponse>,
    doc: &Document,
    offset_encoding: OffsetEncoding,
    current_url: Option<Uri>,
    picker_is_open: bool,
) -> (update: SymbolsUpdate)
    ensures
        right_update(
            update,
            document_answer(response, doc.identifier, offset_encoding),
            current_url,
            picker_is_open,
        ),
{
    match response {
        None => SymbolsUpdate::Nothing,
        Some(response) => {
            let symbols = with_encoding(flat_symbols(response, &doc.identifier), offset_encoding);
            update_picker(symbols, current_url, picker_is_open)
        },
    }
}

/// The symbols of an answer about the workspace, with their encoding.
pub open spec fn workspace_answer(
    response: Option<Vec<SymbolInformation>>,
    offset_encoding: OffsetEncoding,
) -> Option<Seq<(SymbolInformation, OffsetEncoding)>> {
    match response {
        None => None,
        Some(symbols) => Some(in_encoding(symbols@, offset_encoding)),
    }
}

/// Takes an answer with symbols of the workspace.
pub fn workspace_symbols_answered(
    response: Option<Vec<SymbolInformation>>,
    offset_encoding: OffsetEncoding,
    current_url: Option<Uri>,
    picker_is_open: bool,
) -> (update: SymbolsUpdate)
    ensures
        right_update(
            update,
            workspace_answer(response, offset_encoding),
            current_url,
            picker_is_open,
        ),
{
    match response {
        None => SymbolsUpdate::Nothing,
        Some(symbols) => update_picker(
            with_encoding(symbols, offset_encoding),
            current_url,
            picker_is_open,
        ),
    }
}

/// The request for the symbols of a document to one server.
pub open spec fn symbols_request(doc: Document, server: LanguageServer) -> Callback {
    Callback::DocumentSymbols {
        server: server.id,
        offset_encoding: server.offset_encoding,
        document: doc.identifier,
        current_url: doc.url,
    }
}

/// Asks every server that can tell for the symbols of the document.
pub fn symbol_picker(cx: &mut Context)
    ensures
        final(cx).editor == old(cx).editor,
        final(cx).layers == old(cx).layers,
        final(cx).callbacks@ == old(cx).callbacks@ + servers_with(
            old(cx).editor.doc.language_servers@,
            LanguageServerFeature::DocumentSymbols,
        ).map_values(|server: LanguageServer| symbols_request(old(cx).editor.doc, server)),
{
    let servers = cx.editor.doc.language_servers_with_feature(
        LanguageServerFeature::DocumentSymbols,
    );
    let ghost doc = cx.editor.doc;
    let ghost wanted = servers@.map_values(
        |server: LanguageServer| symbols_request(doc, server),
    );
    let ghost before = *cx;
    let mut i: usize = 0;
    assert(wanted.take(0) =~= Seq::empty());
    while i < servers.len()
        invariant
            i <= servers@.len(),
            before.editor.doc == doc,
            cx.editor == before.editor,
            cx.layers == before.layers,
            wanted == servers@.map_values(
                |server: LanguageServer| symbols_request(doc, server),
            ),
            cx.callbacks@ == before.callbacks@ + wanted.take(i as int),
        decreases servers@.len() - i,
    {
        let server = servers[i];
        let document = cx.editor.doc.identifier.clone();
        let current_url = clone_url(&cx.editor.doc.url);
        cx.callbacks.push(
            Callback::DocumentSymbols {
                server: server.id,
                offset_encoding: server.offset_encoding,
                document,
                current_url,
            },
        );
        assert(wanted.take(i + 1) =~= wanted.take(i as int).push(wanted[i as int]));
        i += 1;
    }
    assert(wanted.take(wanted.len() as int) =~= wanted);
}

/// Whether `callback` asks `server` for all symbols of the workspace.
pub open spec fn asks_for_workspace_symbols(
    callback: Callback,
    doc: Document,
    server: LanguageServer,
) -> bool {
    callback matches Callback::WorkspaceSymbols {
        server: id,
        offset_encoding,
        query,
        current_url,
    } && id == server.id && offset_encoding == server.offset_encoding && query@ == ""@
        && current_url == doc.url
}

/// Asks every server that can tell for all symbols of the workspace.
pub fn workspace_symbol_picker(cx: &mut Context)
    ensures
        final(cx).editor == old(cx).editor,
        final(cx).layers == old(cx).layers,
        ({
            let servers = servers_with(
                old(cx).editor.doc.language_servers@,
                LanguageServerFeature::WorkspaceSymbols,
            );
            let sent = old(cx).callbacks@.len();
            &&& final(cx).callbacks@.len() == sent + servers.len()
            &&& final(cx).callbacks@.take(sent as int) == old(cx).callbacks@
            &&& forall|i: int|
                0 <= i < servers.len() ==> asks_for_workspace_symbols(
                    final(cx).callbacks@[sent + i],
                    old(cx).editor.doc,
                    #[trigger] servers[i],
                )
        }),
{
    let servers = cx.editor.doc.language_servers_with_feature(
        LanguageServerFeature::WorkspaceSymbols,
    );
    let ghost before = *cx;
    let ghost sent = cx.callbacks@.len();
    let mut i: usize = 0;
    assert(cx.callbacks@.take(sent as int) =~= before.callbacks@);
    while i < servers.len()
        invariant
            i <= servers@.len(),
            cx.editor == before.editor,
            cx.layers == before.layers,
            sent == before.callbacks@.len(),
            cx.callbacks@.len() == sent + i,
            cx.callbacks@.take(sent as int) == before.callbacks@,
            forall|k: int|
                0 <= k < i ==> asks_for_workspace_symbols(
                    cx.callbacks@[sent + k],
                    before.editor.doc,
                    #[trigger] servers@[k],
                ),
        decreases servers@.len() - i,
    {
        let server = servers[i];
        let current_url = clone_url(&cx.editor.doc.url);
        let ghost earlier = cx.callbacks@;
        cx.callbacks.push(
            Callback::WorkspaceSymbols {
                server: server.id,
                offset_encoding: server.offset_encoding,
                query: "".to_owned(),
                current_url,
            },
        );
        assert(cx.callbacks@.take(sent as int) =~= earlier.take(sent as int));
        i += 1;
    }
}

/// How many symbols there are in a symbol, itself included.
pub open spec fn symbol_count(symbol: DocumentSymbol) -> nat
    decreases symbol,
{
    1 + match symbol.children {
        Some(children) => list_count(children@),
        None => 0,
    }
}

/// How many symbols there are in a list, those inside them included.
pub open spec fn list_count(symbols: Seq<DocumentSymbol>) -> nat
    decreases symbols,
{
    if symbols.len() == 0 {
        0
    } else {
        list_count(symbols.drop_last()) + symbol_count(symbols.last())
    }
}

/// The flat list has as many symbols as the nested one, all of them in the
/// document.
pub proof fn law_flat_list_is_complete(file: Uri, symbols: Seq<DocumentSymbol>)
    ensures
        all_flattened(file, symbols).len() == list_count(symbols),
        forall|i: int|
            0 <= i < all_flattened(file, symbols).len() ==> (#[trigger] all_flattened(
                file,
                symbols,
            )[i]).location.uri == file,
    decreases symbols,
{
    if symbols.len() > 0 {
        law_flat_list_is_complete(file, symbols.drop_last());
        law_flat_symbol_is_complete(file, symbols.last());
    }
}

/// The flat list of one symbol has as many symbols as are in it, all of them in
/// the document, and the symbol itself comes first.
pub proof fn law_flat_symbol_is_complete(file: Uri, symbol: DocumentSymbol)
    ensures
        flattened(file, symbol).len() == symbol_count(symbol),
        flattened(file, symbol)[0] == flat_symbol(file, symbol),
        forall|i: int|
            0 <= i < flattened(file, symbol).len() ==> (#[trigger] flattened(
                file,
                symbol,
            )[i]).location.uri == file,
    decreases symbol,
{
    if let Some(children) = symbol.children {
        law_flat_list_is_complete(file, children@);
        assert forall|i: int| 0 <= i < flattened(file, symbol).len() implies (
        #[trigger] flattened(file, symbol)[i]).location.uri == file by {
            if i > 0 {
                assert(flattened(file, symbol)[i] == all_flattened(file, children@)[i - 1]);
            }
        }
    }
}

/// Whether `symbol` is `inner`, or holds it at some depth.
pub open spec fn holds(symbol: DocumentSymbol, inner: DocumentSymbol) -> bool
    decreases symbol,
{
    symbol == inner || (symbol.children matches Some(children) && list_holds(children@, inner))
}

/// Whether a symbol of the list is `inner`, or holds it at some depth.
pub open spec fn list_holds(symbols: Seq<DocumentSymbol>, inner: DocumentSymbol) -> bool
    decreases symbols,
{
    symbols.len() > 0 && (list_holds(symbols.drop_last(), inner) || holds(symbols.last(), inner))
}

/// Every symbol of the nested list is in the flat one, however deep it lies.
pub proof fn law_no_symbol_is_lost(
    file: Uri,
    symbols: Seq<DocumentSymbol>,
    inner: DocumentSymbol,
)
    requires
        list_holds(symbols, inner),
    ensures
        all_flattened(file, symbols).contains(flat_symbol(file, inner)),
    decreases symbols, 0int,
{
    let shorter = all_flattened(file, symbols.drop_last());
    let added = flattened(file, symbols.last());
    let wanted = flat_symbol(file, inner);
    if list_holds(symbols.drop_last(), inner) {
        law_no_symbol_is_lost(file, symbols.drop_last(), inner);
        let at = choose|at: int| 0 <= at < shorter.len() && shorter[at] == wanted;
        assert((shorter + added)[at] == wanted);
    } else {
        lemma_symbol_is_kept(file, symbols.last(), inner);
        let at = choose|at: int| 0 <= at < added.len() && added[at] == wanted;
        assert((shorter + added)[shorter.len() + at] == wanted);
    }
}

/// Every symbol inside a symbol is in its flat list.
proof fn lemma_symbol_is_kept(file: Uri, symbol: DocumentSymbol, inner: DocumentSymbol)
    requires
        holds(symbol, inner),
    ensures
        flattened(file, symbol).contains(flat_symbol(file, inner)),
    decreases symbol, 0int,
{
    let wanted = flat_symbol(file, inner);
    if symbol == inner {
        assert(flattened(file, symbol)[0] == wanted);
    } else {
        let children = symbol.children->0@;
        law_no_symbol_is_lost(file, children, inner);
        let below = all_flattened(file, children);
        let at = choose|at: int| 0 <= at < below.len() && below[at] == wanted;
        assert(flattened(file, symbol)[at + 1] == wanted);
    }
}

/// The symbols that are shown once an update is made, where `shown` were shown
/// before it.
pub open spec fn after_update(
    shown: Option<Seq<(SymbolInformation, OffsetEncoding)>>,
    update: SymbolsUpdate,
) -> Option<Seq<(SymbolInformation, OffsetEncoding)>> {
    match update {
        SymbolsUpdate::Nothing => shown,
        SymbolsUpdate::AddOptions(options) => Some(shown->0 + options@),
        SymbolsUpdate::Open(picker) => Some(picker.symbols@),
    }
}

/// The symbols that are shown once some updates are made, one after the other,
/// while the user closes nothing.
pub open spec fn shown_after(updates: Seq<SymbolsUpdate>) -> Option<
    Seq<(SymbolInformation, OffsetEncoding)>,
>
    decreases updates.len(),
{
    if updates.len() == 0 {
        None
    } else {
        after_update(shown_after(updates.drop_last()), updates.last())
    }
}

/// The symbols of all answers, one answer after the other; `None` where no
/// server gave any.
pub open spec fn joined(answers: Seq<Option<Seq<(SymbolInformation, OffsetEncoding)>>>) -> Option<
    Seq<(SymbolInformation, OffsetEncoding)>,
>
    decreases answers.len(),
{
    if answers.len() == 0 {
        None
    } else {
        match (joined(answers.drop_last()), answers.last()) {
            (before, None) => before,
            (None, Some(symbols)) => Some(symbols),
            (Some(before), Some(symbols)) => Some(before + symbols),
        }
    }
}

/// The answers of several servers make one list: it shows the symbols of all
/// answers that have come, in the order in which they came.
pub proof fn law_answers_join_in_one_list(
    updates: Seq<SymbolsUpdate>,
    answers: Seq<Option<Seq<(SymbolInformation, OffsetEncoding)>>>,
    current_url: Option<Uri>,
)
    requires
        updates.len() == answers.len(),
        forall|i: int|
            0 <= i < updates.len() ==> right_update(
                #[trigger] updates[i],
                answers[i],
                current_url,
                shown_after(updates.take(i)) is Some,
            ),
    ensures
        shown_after(updates) == joined(answers),
    decreases updates.len(),
{
    if updates.len() > 0 {
        let fewer = updates.drop_last();
        assert forall|i: int| 0 <= i < fewer.len() implies right_update(
            #[trigger] fewer[i],
            answers.drop_last()[i],
            current_url,
            shown_after(fewer.take(i)) is Some,
        ) by {
            assert(fewer[i] == updates[i]);
            assert(fewer.take(i) =~= updates.take(i));
        }
        law_answers_join_in_one_list(fewer, answers.drop_last(), current_url);
        assert(updates.take(updates.len() - 1) =~= fewer);
        assert(right_update(
            updates[updates.len() - 1],
            answers[updates.len() - 1],
            current_url,
            shown_after(fewer) is Some,
        ));
    }
}

/// A symbol in the flat list keeps its name, its kind and its marks, and its place
/// is the one to select in the document, and not the whole stretch that it spans.
pub proof fn law_flat_symbol_keeps_its_place(file: Uri, symbol: DocumentSymbol)
    ensures
        flattened(file, symbol).len() > 0,
        ({
            let first = flattened(file, symbol)[0];
            &&& first.name == symbol.name
            &&& first.kind == symbol.kind
            &&& first.tags == symbol.tags
            &&& first.deprecated == symbol.deprecated
            &&& first.location.uri == file
            &&& first.location.range == symbol.selection_range
            &&& first.container_name is None
        }),
{
}

/// A symbol comes directly before the symbols inside it, and these come as they
/// would on their own.
pub proof fn law_inner_symbols_follow(file: Uri, symbol: DocumentSymbol)
    ensures
        symbol.children is None ==> flattened(file, symbol).len() == 1,
        symbol.children matches Some(children) ==> flattened(file, symbol).skip(1) == all_flattened(
            file,
            children@,
        ),
{
    if let Some(children) = symbol.children {
        assert(flattened(file, symbol).skip(1) =~= all_flattened(file, children@));
    }
}

/// The symbols of one list come before those of a list that follows it, and a list
/// of one symbol shows what that symbol shows.
pub proof fn law_symbols_come_in_order(
    file: Uri,
    one: Seq<DocumentSymbol>,
    other: Seq<DocumentSymbol>,
    symbol: DocumentSymbol,
)
    ensures
        all_flattened(file, one + other) == all_flattened(file, one) + all_flattened(file, other),
        all_flattened(file, seq![symbol]) == flattened(file, symbol),
        all_flattened(file, Seq::empty()).len() == 0,
    decreases other.len(),
{
    assert(seq![symbol].drop_last() =~= Seq::empty());
    assert(all_flattened(file, seq![symbol].drop_last()) =~= Seq::empty());
    assert(all_flattened(file, seq![symbol]) =~= flattened(file, symbol));
    if other.len() == 0 {
        assert(one + other =~= one);
        assert(all_flattened(file, one) + all_flattened(file, other) =~= all_flattened(file, one));
    } else {
        law_symbols_come_in_order(file, one, other.drop_last(), symbol);
        assert((one + other).drop_last() =~= one + other.drop_last());
        assert(all_flattened(file, one + other) =~= all_flattened(file, one) + all_flattened(
            file,
            other,
        ));
    }
}

/// An answer that is flat already is kept as it is, symbol by symbol, and one that
/// is nested becomes flat. Every symbol goes with the encoding of its server.
pub proof fn law_answered_symbols_are_kept(
    response: Option<DocumentSymbolResponse>,
    file: Uri,
    offset_encoding: OffsetEncoding,
)
    ensures
        match response {
            None => document_answer(response, file, offset_encoding) is None,
            Some(DocumentSymbolResponse::Flat(symbols)) => {
                let list = document_answer(response, file, offset_encoding)->0;
                &&& document_answer(response, file, offset_encoding) is Some
                &&& list.len() == symbols@.len()
                &&& forall|i: int|
                    0 <= i < symbols@.len() ==> list[i] == (#[trigger] symbols@[i], offset_encoding)
            },
            Some(DocumentSymbolResponse::Nested(symbols)) => {
                let list = document_answer(response, file, offset_encoding)->0;
                &&& document_answer(response, file, offset_encoding) is Some
                &&& list.len() == all_flattened(file, symbols@).len()
                &&& forall|i: int|
                    0 <= i < list.len() ==> (#[trigger] list[i]).0 == all_flattened(
                        file,
                        symbols@,
                    )[i] && list[i].1 == offset_encoding
            },
        },
{
}

/// Every symbol of an answer about the workspace is kept, in order, with the
/// encoding of its server.
pub proof fn law_workspace_symbols_are_kept(
    response: Option<Vec<SymbolInformation>>,
    offset_encoding: OffsetEncoding,
)
    ensures
        match response {
            None => workspace_answer(response, offset_encoding) is None,
            Some(symbols) => {
                let list = workspace_answer(response, offset_encoding)->0;
                &&& workspace_answer(response, offset_encoding) is Some
                &&& list.len() == symbols@.len()
                &&& forall|i: int|
                    0 <= i < symbols@.len() ==> list[i] == (#[trigger] symbols@[i], offset_encoding)
            },
        },
{
}

/// Symbols join the list that is shown, and else make a list of their own, for the
/// document in which they were asked for, whose labels lose their end where they
/// are too long. No answer changes nothing.
pub proof fn law_symbols_are_shown(
    update: SymbolsUpdate,
    symbols: Option<Seq<(SymbolInformation, OffsetEncoding)>>,
    current_url: Option<Uri>,
    picker_is_open: bool,
)
    requires
        right_update(update, symbols, current_url, picker_is_open),
    ensures
        symbols is None <==> update is Nothing,
        symbols is Some && picker_is_open ==> update is AddOptions && (update->AddOptions_0)@
            == symbols->0,
        symbols is Some && !picker_is_open ==> update is Open && {
            &&& (update->Open_0).symbols@ == symbols->0
            &&& (update->Open_0).current_path == current_url
            &&& !(update->Open_0).truncate_start
        },
{
}

/// A request for symbols goes to its server, about the document, and remembers
/// which document had the focus. One for the symbols of the workspace asks for all.
pub proof fn law_symbols_are_asked_for(doc: Document, server: LanguageServer, callback: Callback)
    ensures
        symbols_request(doc, server) is DocumentSymbols,
        symbols_request(doc, server)->DocumentSymbols_server == server.id,
        symbols_request(doc, server)->DocumentSymbols_offset_encoding == server.offset_encoding,
        symbols_request(doc, server)->DocumentSymbols_document == doc.identifier,
        symbols_request(doc, server)->DocumentSymbols_current_url == doc.url,
        asks_for_workspace_symbols(callback, doc, server) ==> callback is WorkspaceSymbols && {
            &&& callback->WorkspaceSymbols_server == server.id
            &&& callback->WorkspaceSymbols_offset_encoding == server.offset_encoding
            &&& callback->query@.len() == 0
            &&& callback->WorkspaceSymbols_current_url == doc.url
        },
{
    reveal_strlit("");
}

} // verus!
