//! The diagnostics of all documents, and the lists that show them.

use crate::editor::{pushed, Context, Editor, Layer};
use crate::labels::{DiagnosticStyles, DiagnosticsFormat, PickerDiagnostic};
use crate::protocol::{clone_url, Diagnostic, OffsetEncoding, Uri};
use vstd::prelude::*;
use vstd::utf8::encode_utf8;

verus! {

/// Whether `a` comes before `b` in the order of their bytes.
pub open spec fn bytes_before(a: Seq<u8>, b: Seq<u8>) -> bool
    decreases a.len(),
{
    if b.len() == 0 {
        false
    } else if a.len() == 0 {
        true
    } else if a[0] != b[0] {
        a[0] < b[0]
    } else {
        bytes_before(a.skip(1), b.skip(1))
    }
}

/// Nothing comes before itself, and of two different texts one comes first.
proof fn lemma_bytes_total(a: Seq<u8>, b: Seq<u8>)
    ensures
        bytes_before(a, b) ==> !bytes_before(b, a) && a != b,
        a != b ==> bytes_before(a, b) || bytes_before(b, a),
    decreases a.len(),
{
    if a.len() > 0 && b.len() > 0 {
        if a[0] == b[0] {
            lemma_bytes_total(a.skip(1), b.skip(1));
            if a.skip(1) == b.skip(1) {
                assert(a =~= seq![a[0]] + a.skip(1));
                assert(b =~= seq![b[0]] + b.skip(1));
            }
        }
    } else {
        assert(a.len() == 0 && b.len() == 0 ==> a =~= b);
    }
}

/// What comes before something comes before all that is behind it.
proof fn lemma_bytes_transitive(a: Seq<u8>, b: Seq<u8>, c: Seq<u8>)
    requires
        bytes_before(a, b),
        bytes_before(b, c),
    ensures
        bytes_before(a, c),
    decreases a.len(),
{
    if a.len() > 0 {
        if a[0] == b[0] && b[0] == c[0] {
            lemma_bytes_transitive(a.skip(1), b.skip(1), c.skip(1));
        }
    }
}

/// Different texts have different bytes.
proof fn lemma_bytes_injective(a: Seq<char>, b: Seq<char>)
    requires
        encode_utf8(a) == encode_utf8(b),
    ensures
        a == b,
{
    vstd::utf8::encode_utf8_decode_utf8(a);
    vstd::utf8::encode_utf8_decode_utf8(b);
}

/// Whether the address `a` comes before the address `b`.
pub open spec fn url_before(a: Uri, b: Uri) -> bool {
    bytes_before(encode_utf8(a.text@), encode_utf8(b.text@))
}

/// Whether the address `a` comes before the address `b`.
fn comes_before(a: &Uri, b: &Uri) -> (before: bool)
    ensures
        before == url_before(*a, *b),
{
    let left = a.text.as_str().as_bytes();
    let right = b.text.as_str().as_bytes();
    let mut i: usize = 0;
    assert(left@.skip(0) =~= left@);
    assert(right@.skip(0) =~= right@);
    while i < left.len() && i < right.len()
        invariant
            i <= left@.len(),
            i <= right@.len(),
            left@ == encode_utf8(a.text@),
            right@ == encode_utf8(b.text@),
            bytes_before(left@, right@) == bytes_before(
                left@.skip(i as int),
                right@.skip(i as int),
            ),
        decreases left@.len() - i,
    {
        assert(left@.skip(i as int).skip(1) =~= left@.skip(i + 1));
        assert(right@.skip(i as int).skip(1) =~= right@.skip(i + 1));
        if left[i] != right[i] {
            return left[i] < right[i];
        }
        i += 1;
    }
    i < right.len()
}

/// The diagnostics of one document.
#[derive(Debug, PartialEq, Eq)]
pub struct DocumentDiagnostics {
    pub url: Uri,
    pub diagnostics: Vec<(Diagnostic, OffsetEncoding)>,
}

/// The diagnostics of all documents, by address.
#[derive(Debug, PartialEq, Eq)]
pub struct Diagnostics {
    pub entries: Vec<DocumentDiagnostics>,
}

/// The diagnostics of the document at `url`: those of the first entry for it.
pub open spec fn found(entries: Seq<DocumentDiagnostics>, url: Seq<char>) -> Seq<
    (Diagnostic, OffsetEncoding),
>
    decreases entries.len(),
{
    if entries.len() == 0 {
        Seq::empty()
    } else if entries[0].url.text@ == url {
        entries[0].diagnostics@
    } else {
        found(entries.skip(1), url)
    }
}

/// Whether the entries are in the order of their addresses, none twice.
pub open spec fn sorted(entries: Seq<DocumentDiagnostics>) -> bool {
    forall|i: int, j: int|
        0 <= i < j < entries.len() ==> url_before(
            (#[trigger] entries[i]).url,
            (#[trigger] entries[j]).url,
        )
}

/// Copies diagnostics.
fn copy_diagnostics(diagnostics: &Vec<(Diagnostic, OffsetEncoding)>) -> (copy: Vec<
    (Diagnostic, OffsetEncoding),
>)
    ensures
        copy@ == diagnostics@,
{
    let mut copy: Vec<(Diagnostic, OffsetEncoding)> = Vec::new();
    let mut i: usize = 0;
    while i < diagnostics.len()
        invariant
            i <= diagnostics@.len(),
            copy@ == diagnostics@.take(i as int),
        decreases diagnostics@.len() - i,
    {
        copy.push((diagnostics[i].0.clone(), diagnostics[i].1));
        assert(diagnostics@.take(i + 1) =~= diagnostics@.take(i as int).push(
            diagnostics@[i as int],
        ));
        i += 1;
    }
    assert(diagnostics@.take(diagnostics@.len() as int) =~= diagnostics@);
    copy
}

/// Where no entry before number `count` is for `url`, the search goes on there.
proof fn lemma_found_skips(entries: Seq<DocumentDiagnostics>, url: Seq<char>, count: int)
    requires
        0 <= count <= entries.len(),
        forall|k: int| 0 <= k < count ==> (#[trigger] entries[k]).url.text@ != url,
    ensures
        found(entries, url) == found(entries.skip(count), url),
    decreases count,
{
    if count == 0 {
        assert(entries.skip(0) =~= entries);
    } else {
        assert forall|k: int| 0 <= k < count - 1 implies (#[trigger] entries.skip(1)[k]).url.text@
            != url by {
            assert(entries.skip(1)[k] == entries[k + 1]);
        }
        lemma_found_skips(entries.skip(1), url, count - 1);
        assert(entries.skip(1).skip(count - 1) =~= entries.skip(count));
    }
}

impl Diagnostics {
    /// Whether the entries are in the order of their addresses, none twice.
    pub open spec fn wf(self) -> bool {
        sorted(self.entries@)
    }

    /// No diagnostics at all.
    pub fn new() -> (diagnostics: Diagnostics)
        ensures
            diagnostics.wf(),
            diagnostics.entries@.len() == 0,
    {
        Diagnostics { entries: Vec::new() }
    }

    /// The diagnostics of the document at `url`, none where it has no entry.
    pub fn get(&self, url: &Uri) -> (diagnostics: Vec<(Diagnostic, OffsetEncoding)>)
        ensures
            diagnostics@ == found(self.entries@, url.text@),
    {
        let mut i: usize = 0;
        while i < self.entries.len()
            invariant
                i <= self.entries@.len(),
                forall|k: int|
                    0 <= k < i ==> (#[trigger] self.entries@[k]).url.text@ != url.text@,
            decreases self.entries@.len() - i,
        {
            if self.entries[i].url.same_as(url) {
                proof {
                    lemma_found_skips(self.entries@, url.text@, i as int);
                    assert(self.entries@.skip(i as int)[0] == self.entries@[i as int]);
                }
                return copy_diagnostics(&self.entries[i].diagnostics);
            }
            i += 1;
        }
        proof {
            lemma_found_skips(self.entries@, url.text@, i as int);
        }
        Vec::new()
    }

    /// Replaces the diagnostics of the document at `url`.
    pub fn insert(&mut self, url: Uri, diagnostics: Vec<(Diagnostic, OffsetEncoding)>)
        requires
            old(self).wf(),
        ensures
            final(self).wf(),
            found(final(self).entries@, url.text@) == diagnostics@,
            forall|other: Seq<char>|
                other != url.text@ ==> #[trigger] found(final(self).entries@, other) == found(
                    old(self).entries@,
                    other,
                ),
    {
        let ghost before = self.entries@;
        let mut i: usize = 0;
        while i < self.entries.len() && comes_before(&self.entries[i].url, &url)
            invariant
                i <= self.entries@.len(),
                self.entries@ == before,
                forall|k: int| 0 <= k < i ==> url_before((#[trigger] self.entries@[k]).url, url),
            decreases self.entries@.len() - i,
        {
            i += 1;
        }
        proof {
            assert forall|k: int| 0 <= k < i implies (#[trigger] before[k]).url.text@
                != url.text@ by {
                lemma_bytes_total(encode_utf8(before[k].url.text@), encode_utf8(url.text@));
            }
        }
        let replaces = i < self.entries.len() && self.entries[i].url.same_as(&url);
        let entry = DocumentDiagnostics { url, diagnostics };
        if replaces {
            self.entries.set(i, entry);
            proof {
                let after = self.entries@;
                lemma_found_skips(after, url.text@, i as int);
                assert(after.skip(i as int)[0] == after[i as int]);
                assert forall|other: Seq<char>| other != url.text@ implies #[trigger] found(
                    after,
                    other,
                ) == found(before, other) by {
                    lemma_found_updated(before, entry, i as int, other);
                }
            }
        } else {
            self.entries.insert(i, entry);
            proof {
                let after = self.entries@;
                assert forall|k: int| i <= k < before.len() implies url_before(
                    url,
                    (#[trigger] before[k]).url,
                ) by {
                    let at = before[i as int].url;
                    lemma_bytes_total(encode_utf8(at.text@), encode_utf8(url.text@));
                    if encode_utf8(at.text@) == encode_utf8(url.text@) {
                        lemma_bytes_injective(at.text@, url.text@);
                    }
                    if k > i {
                        lemma_bytes_transitive(
                            encode_utf8(url.text@),
                            encode_utf8(at.text@),
                            encode_utf8(before[k].url.text@),
                        );
                    }
                }
                lemma_found_skips(after, url.text@, i as int);
                assert(after.skip(i as int)[0] == after[i as int]);
                assert forall|other: Seq<char>| other != url.text@ implies #[trigger] found(
                    after,
                    other,
                ) == found(before, other) by {
                    lemma_found_inserted(before, entry, i as int, other);
                }
            }
        }
    }
}

/// An entry for another address makes no difference.
proof fn lemma_found_inserted(
    entries: Seq<DocumentDiagnostics>,
    entry: DocumentDiagnostics,
    at: int,
    other: Seq<char>,
)
    requires
        0 <= at <= entries.len(),
        entry.url.text@ != other,
    ensures
        found(entries.insert(at, entry), other) == found(entries, other),
    decreases at,
{
    let longer = entries.insert(at, entry);
    if at == 0 {
        assert(longer.skip(1) =~= entries);
    } else {
        lemma_found_inserted(entries.skip(1), entry, at - 1, other);
        assert(longer.skip(1) =~= entries.skip(1).insert(at - 1, entry));
    }
}

/// To replace the entry of one address makes no difference to another.
proof fn lemma_found_updated(
    entries: Seq<DocumentDiagnostics>,
    entry: DocumentDiagnostics,
    at: int,
    other: Seq<char>,
)
    requires
        0 <= at < entries.len(),
        entry.url.text@ != other,
        entries[at].url.text@ != other,
    ensures
        found(entries.update(at, entry), other) == found(entries, other),
    decreases at,
{
    let changed = entries.update(at, entry);
    if at == 0 {
        assert(changed.skip(1) =~= entries.skip(1));
    } else {
        lemma_found_updated(entries.skip(1), entry, at - 1, other);
        assert(changed.skip(1) =~= entries.skip(1).update(at - 1, entry));
    }
}

/// A list of diagnostics to choose from.
#[derive(Debug, PartialEq, Eq)]
pub struct DiagnosticPicker {
    pub items: Vec<PickerDiagnostic>,
    pub styles: DiagnosticStyles,
    pub format: DiagnosticsFormat,
    /// The address of the document that had the focus.
    pub current_path: Option<Uri>,
    /// Whether a label that is too long loses its start, and not its end.
    pub truncate_start: bool,
}

/// The item of one diagnostic of the document at `url`.
pub open spec fn item_of(url: Uri, diagnostic: (Diagnostic, OffsetEncoding)) -> PickerDiagnostic {
    PickerDiagnostic { url, diag: diagnostic.0, offset_encoding: diagnostic.1 }
}

/// The items of the document at `url`.
pub open spec fn items_of(url: Uri, diagnostics: Seq<(Diagnostic, OffsetEncoding)>) -> Seq<
    PickerDiagnostic,
> {
    diagnostics.map_values(|diagnostic: (Diagnostic, OffsetEncoding)| item_of(url, diagnostic))
}

/// The items of all entries, one entry after the other.
pub open spec fn flat(entries: Seq<DocumentDiagnostics>) -> Seq<PickerDiagnostic>
    decreases entries.len(),
{
    if entries.len() == 0 {
        Seq::empty()
    } else {
        flat(entries.drop_last()) + items_of(entries.last().url, entries.last().diagnostics@)
    }
}

/// A list of all diagnostics in `entries`, in the styles of the theme.
pub fn diag_picker(
    editor: &Editor,
    entries: &Vec<DocumentDiagnostics>,
    current_path: Option<Uri>,
    format: DiagnosticsFormat,
) -> (picker: DiagnosticPicker)
    ensures
        picker.items@ == flat(entries@),
        picker.styles == editor.theme,
        picker.format == format,
        picker.current_path == current_path,
        !picker.truncate_start,
{
    let mut items: Vec<PickerDiagnostic> = Vec::new();
    let mut i: usize = 0;
    assert(entries@.take(0) =~= Seq::empty());
    while i < entries.len()
        invariant
            i <= entries@.len(),
            items@ == flat(entries@.take(i as int)),
        decreases entries@.len() - i,
    {
        let entry = &entries[i];
        let ghost whole = items_of(entry.url, entry.diagnostics@);
        let ghost before = items@;
        let mut k: usize = 0;
        assert(whole.take(0) =~= Seq::empty());
        while k < entry.diagnostics.len()
            invariant
                k <= entry.diagnostics@.len(),
                whole == items_of(entry.url, entry.diagnostics@),
                items@ == before + whole.take(k as int),
            decreases entry.diagnostics@.len() - k,
        {
            items.push(
                PickerDiagnostic {
                    url: entry.url.clone(),
                    diag: entry.diagnostics[k].0.clone(),
                    offset_encoding: entry.diagnostics[k].1,
                },
            );
            assert(whole.take(k + 1) =~= whole.take(k as int).push(whole[k as int]));
            k += 1;
        }
        assert(whole.take(whole.len() as int) =~= whole);
        assert(entries@.take(i + 1).drop_last() =~= entries@.take(i as int));
        i += 1;
    }
    assert(entries@.take(entries@.len() as int) =~= entries@);
    DiagnosticPicker { items, styles: editor.theme, format, current_path, truncate_start: false }
}

/// Whether `after` is `before` with a list of `items` on top.
pub open spec fn shows_diagnostics(
    before: Context,
    after: Context,
    items: Seq<PickerDiagnostic>,
    format: DiagnosticsFormat,
    current_path: Option<Uri>,
) -> bool {
    &&& pushed(before, after, after.layers@.last())
    &&& after.layers@.last() matches Layer::Diagnostics(picker) && {
        &&& picker.items@ == items
        &&& picker.styles == before.editor.theme
        &&& picker.format == format
        &&& picker.current_path == current_path
        &&& !picker.truncate_start
    }
}

/// Shows the diagnostics of the document that has the focus. A document without
/// an address has no list.
pub fn diagnostics_picker(cx: &mut Context)
    ensures
        match old(cx).editor.doc.url {
            None => *final(cx) == *old(cx),
            Some(url) => shows_diagnostics(
                *old(cx),
                *final(cx),
                items_of(url, found(old(cx).editor.diagnostics.entries@, url.text@)),
                DiagnosticsFormat::HideSourcePath,
                Some(url),
            ),
        },
{
    if let Some(current_url) = clone_url(&cx.editor.doc.url) {
        let diagnostics = cx.editor.diagnostics.get(&current_url);
        let mut entries: Vec<DocumentDiagnostics> = Vec::new();
        entries.push(DocumentDiagnostics { url: current_url.clone(), diagnostics });
        assert(flat(entries@) =~= items_of(current_url, diagnostics@)) by {
            assert(entries@.drop_last() =~= Seq::empty());
            assert(flat(entries@.drop_last()) =~= Seq::empty());
        }
        let picker = diag_picker(
            &cx.editor,
            &entries,
            Some(current_url),
            DiagnosticsFormat::HideSourcePath,
        );
        cx.layers.push(Layer::Diagnostics(picker));
    }
}

/// Shows the diagnostics of all documents, with the file of each.
pub fn workspace_diagnostics_picker(cx: &mut Context)
    ensures
        shows_diagnostics(
            *old(cx),
            *final(cx),
            flat(old(cx).editor.diagnostics.entries@),
            DiagnosticsFormat::ShowSourcePath,
            old(cx).editor.doc.url,
        ),
{
    let current_url = clone_url(&cx.editor.doc.url);
    let picker = diag_picker(
        &cx.editor,
        &cx.editor.diagnostics.entries,
        current_url,
        DiagnosticsFormat::ShowSourcePath,
    );
    cx.layers.push(Layer::Diagnostics(picker));
}

/// How many diagnostics all entries hold.
pub open spec fn total(entries: Seq<DocumentDiagnostics>) -> nat
    decreases entries.len(),
{
    if entries.len() == 0 {
        0
    } else {
        total(entries.drop_last()) + entries.last().diagnostics@.len()
    }
}

/// The list of all diagnostics holds every diagnostic of every document.
pub proof fn law_no_diagnostic_is_lost(entries: Seq<DocumentDiagnostics>)
    ensures
        flat(entries).len() == total(entries),
        forall|i: int, k: int|
            0 <= i < entries.len() && 0 <= k < entries[i].diagnostics@.len() ==> flat(
                entries,
            ).contains(#[trigger] item_of(entries[i].url, entries[i].diagnostics@[k])),
    decreases entries.len(),
{
    if entries.len() > 0 {
        let shorter = entries.drop_last();
        law_no_diagnostic_is_lost(shorter);
        let added = items_of(entries.last().url, entries.last().diagnostics@);
        assert forall|i: int, k: int|
            0 <= i < entries.len() && 0 <= k < entries[i].diagnostics@.len() implies flat(
            entries,
        ).contains(#[trigger] item_of(entries[i].url, entries[i].diagnostics@[k])) by {
            let item = item_of(entries[i].url, entries[i].diagnostics@[k]);
            if i < shorter.len() {
                assert(shorter[i] == entries[i]);
                assert(flat(shorter).contains(item_of(shorter[i].url, shorter[i].diagnostics@[k])));
                let at = choose|at: int| 0 <= at < flat(shorter).len() && flat(shorter)[at] == item;
                assert(flat(entries)[at] == item);
            } else {
                assert(added[k] == item);
                assert(flat(entries)[flat(shorter).len() + k] == item);
            }
        }
    }
}

/// Every item of a list comes from an entry.
proof fn lemma_items_come_from_entries(entries: Seq<DocumentDiagnostics>, at: int) -> (i: int)
    requires
        0 <= at < flat(entries).len(),
    ensures
        0 <= i < entries.len(),
        flat(entries)[at].url == entries[i].url,
    decreases entries.len(),
{
    let shorter = entries.drop_last();
    if at < flat(shorter).len() {
        let i = lemma_items_come_from_entries(shorter, at);
        assert(flat(entries)[at] == flat(shorter)[at]);
        i
    } else {
        entries.len() - 1
    }
}

/// The list of all diagnostics goes by the addresses of the documents.
pub proof fn law_diagnostics_in_order_of_documents(entries: Seq<DocumentDiagnostics>)
    requires
        sorted(entries),
    ensures
        forall|i: int, j: int|
            0 <= i < j < flat(entries).len() ==> (#[trigger] flat(entries)[i]).url == (
            #[trigger] flat(entries)[j]).url || url_before(
                flat(entries)[i].url,
                flat(entries)[j].url,
            ),
    decreases entries.len(),
{
    if entries.len() > 0 {
        let shorter = entries.drop_last();
        law_diagnostics_in_order_of_documents(shorter);
        assert forall|i: int, j: int| 0 <= i < j < flat(entries).len() implies (
        #[trigger] flat(entries)[i]).url == (#[trigger] flat(entries)[j]).url || url_before(
            flat(entries)[i].url,
            flat(entries)[j].url,
        ) by {
            if j < flat(shorter).len() {
                assert(flat(entries)[i] == flat(shorter)[i]);
                assert(flat(entries)[j] == flat(shorter)[j]);
            } else if i < flat(shorter).len() {
                let at = lemma_items_come_from_entries(shorter, i);
                assert(flat(entries)[i] == flat(shorter)[i]);
                assert(url_before(entries[at].url, entries[entries.len() - 1].url));
            }
        }
    }
}

/// The items of one document, in a list.
pub open spec fn of_document(items: Seq<PickerDiagnostic>, url: Seq<char>) -> Seq<
    PickerDiagnostic,
> {
    items.filter(|item: PickerDiagnostic| item.url.text@ == url)
}

/// The diagnostics that the items of a list show.
pub open spec fn shown(items: Seq<PickerDiagnostic>) -> Seq<(Diagnostic, OffsetEncoding)> {
    items.map_values(|item: PickerDiagnostic| (item.diag, item.offset_encoding))
}

/// What the list of all diagnostics holds of one document is what the list of
/// that document alone holds, in the same order.
pub proof fn law_lists_agree(entries: Seq<DocumentDiagnostics>, url: Uri)
    requires
        sorted(entries),
    ensures
        shown(of_document(flat(entries), url.text@)) == shown(
            items_of(url, found(entries, url.text@)),
        ),
    decreases entries.len(),
{
    let mine = |item: PickerDiagnostic| item.url.text@ == url.text@;
    assert(shown(items_of(url, found(entries, url.text@))) =~= found(entries, url.text@));
    if entries.len() == 0 {
        lemma_filter_none(flat(entries), mine);
        assert(shown(of_document(flat(entries), url.text@)) =~= Seq::empty());
    } else {
        let shorter = entries.drop_last();
        let last = entries.last();
        law_lists_agree(shorter, url);
        assert(shown(items_of(url, found(shorter, url.text@))) =~= found(shorter, url.text@));
        let added = items_of(last.url, last.diagnostics@);
        lemma_filter_concat(flat(shorter), added, mine);
        if last.url.text@ == url.text@ {
            lemma_filter_all(added, mine);
            assert forall|k: int| 0 <= k < entries.len() - 1 implies (
            #[trigger] entries[k]).url.text@ != url.text@ by {
                assert(url_before(entries[k].url, entries[entries.len() - 1].url));
                lemma_bytes_total(
                    encode_utf8(entries[k].url.text@),
                    encode_utf8(last.url.text@),
                );
            }
            assert forall|k: int| 0 <= k < shorter.len() implies (
            #[trigger] shorter[k]).url.text@ != url.text@ by {
                assert(shorter[k] == entries[k]);
            }
            lemma_found_skips(shorter, url.text@, shorter.len() as int);
            assert(shorter.skip(shorter.len() as int) =~= Seq::empty());
            lemma_found_skips(entries, url.text@, entries.len() - 1);
            assert(entries.skip(entries.len() - 1)[0] == last);
            assert(shown(flat(shorter).filter(mine)).len() == 0);
            assert(shown(flat(entries).filter(mine)) =~= last.diagnostics@);
        } else {
            lemma_filter_none(added, mine);
            lemma_found_pushed(shorter, last, url.text@);
            assert(shorter.push(last) =~= entries);
            assert(flat(entries).filter(mine) =~= flat(shorter).filter(mine));
        }
    }
}

/// An entry for another address at the end makes no difference.
proof fn lemma_found_pushed(
    entries: Seq<DocumentDiagnostics>,
    entry: DocumentDiagnostics,
    other: Seq<char>,
)
    requires
        entry.url.text@ != other,
    ensures
        found(entries.push(entry), other) == found(entries, other),
{
    lemma_found_inserted(entries, entry, entries.len() as int, other);
    assert(entries.insert(entries.len() as int, entry) =~= entries.push(entry));
}

/// To filter two lists one after the other is to filter each.
proof fn lemma_filter_concat(
    a: Seq<PickerDiagnostic>,
    b: Seq<PickerDiagnostic>,
    keep: spec_fn(PickerDiagnostic) -> bool,
)
    ensures
        (a + b).filter(keep) == a.filter(keep) + b.filter(keep),
    decreases b.len(),
{
    reveal(Seq::filter);
    if b.len() == 0 {
        assert(a + b =~= a);
        assert(a.filter(keep) + b.filter(keep) =~= a.filter(keep));
    } else {
        lemma_filter_concat(a, b.drop_last(), keep);
        assert((a + b).drop_last() =~= a + b.drop_last());
        assert((a + b).filter(keep) =~= a.filter(keep) + b.filter(keep));
    }
}

/// A filter that keeps all changes nothing.
proof fn lemma_filter_all(items: Seq<PickerDiagnostic>, keep: spec_fn(PickerDiagnostic) -> bool)
    requires
        forall|i: int| 0 <= i < items.len() ==> keep(#[trigger] items[i]),
    ensures
        items.filter(keep) == items,
    decreases items.len(),
{
    reveal(Seq::filter);
    if items.len() > 0 {
        lemma_filter_all(items.drop_last(), keep);
        assert(items =~= items.drop_last().push(items.last()));
    }
}

/// A filter that keeps nothing leaves nothing.
proof fn lemma_filter_none(items: Seq<PickerDiagnostic>, keep: spec_fn(PickerDiagnostic) -> bool)
    requires
        forall|i: int| 0 <= i < items.len() ==> !keep(#[trigger] items[i]),
    ensures
        items.filter(keep) == Seq::<PickerDiagnostic>::empty(),
    decreases items.len(),
{
    reveal(Seq::filter);
    if items.len() > 0 {
        lemma_filter_none(items.drop_last(), keep);
    }
}

/// Every item of a list carries the very diagnostic that it stands for, with the
/// address of its document and the encoding of its server.
pub proof fn law_items_carry_their_diagnostics(
    url: Uri,
    diagnostics: Seq<(Diagnostic, OffsetEncoding)>,
)
    ensures
        items_of(url, diagnostics).len() == diagnostics.len(),
        forall|k: int|
            0 <= k < diagnostics.len() ==> {
                let item = #[trigger] items_of(url, diagnostics)[k];
                &&& item.url == url
                &&& item.diag == diagnostics[k].0
                &&& item.diag.range == diagnostics[k].0.range
                &&& item.diag.severity == diagnostics[k].0.severity
                &&& item.diag.code == diagnostics[k].0.code
                &&& item.diag.message == diagnostics[k].0.message
                &&& item.offset_encoding == diagnostics[k].1
            },
{
}

/// Every diagnostic of every entry is in the list of all, as it is.
pub proof fn law_list_carries_every_diagnostic(entries: Seq<DocumentDiagnostics>, i: int, k: int)
    requires
        0 <= i < entries.len(),
        0 <= k < entries[i].diagnostics@.len(),
    ensures
        exists|at: int|
            0 <= at < flat(entries).len() && {
                let item = #[trigger] flat(entries)[at];
                &&& item.url == entries[i].url
                &&& item.diag == entries[i].diagnostics@[k].0
                &&& item.offset_encoding == entries[i].diagnostics@[k].1
            },
{
    law_no_diagnostic_is_lost(entries);
    let item = item_of(entries[i].url, entries[i].diagnostics@[k]);
    assert(flat(entries).contains(item));
    let at = choose|at: int| 0 <= at < flat(entries).len() && flat(entries)[at] == item;
    assert(flat(entries)[at] == item);
}

/// The diagnostics of some entries come before those of entries that follow them,
/// and an entry alone shows its own, in order.
pub proof fn law_list_goes_by_entries(
    one: Seq<DocumentDiagnostics>,
    other: Seq<DocumentDiagnostics>,
    entry: DocumentDiagnostics,
)
    ensures
        flat(one + other) == flat(one) + flat(other),
        flat(Seq::empty()).len() == 0,
        flat(seq![entry]).len() == entry.diagnostics@.len(),
        forall|k: int|
            0 <= k < entry.diagnostics@.len() ==> (#[trigger] flat(seq![entry])[k]).url == entry.url
                && flat(seq![entry])[k].diag == entry.diagnostics@[k].0
                && flat(seq![entry])[k].offset_encoding == entry.diagnostics@[k].1,
    decreases other.len(),
{
    assert(seq![entry].drop_last() =~= Seq::empty());
    assert(flat(seq![entry].drop_last()) =~= Seq::empty());
    assert(flat(seq![entry]) =~= items_of(entry.url, entry.diagnostics@));
    if other.len() == 0 {
        assert(one + other =~= one);
        assert(flat(one) + flat(other) =~= flat(one));
    } else {
        law_list_goes_by_entries(one, other.drop_last(), entry);
        assert((one + other).drop_last() =~= one + other.drop_last());
        assert(flat(one + other) =~= flat(one) + flat(other));
    }
}

/// What is found for an address is what its first entry holds, and nothing where
/// it has no entry.
pub proof fn law_found_by_address(entries: Seq<DocumentDiagnostics>, url: Seq<char>, i: int)
    requires
        0 <= i <= entries.len(),
        forall|k: int| 0 <= k < i ==> (#[trigger] entries[k]).url.text@ != url,
        i < entries.len() ==> entries[i].url.text@ == url,
    ensures
        i < entries.len() ==> found(entries, url) == entries[i].diagnostics@,
        i == entries.len() ==> found(entries, url).len() == 0,
{
    lemma_found_skips(entries, url, i);
    if i < entries.len() {
        assert(entries.skip(i)[0] == entries[i]);
    }
}

/// Addresses go by the first byte in which they differ, and a prefix comes before
/// what it is a prefix of.
pub proof fn law_addresses_go_by_their_bytes(a: Uri, b: Uri, same: int)
    requires
        0 <= same <= encode_utf8(a.text@).len(),
        same <= encode_utf8(b.text@).len(),
        forall|k: int|
            0 <= k < same ==> #[trigger] encode_utf8(a.text@)[k] == encode_utf8(b.text@)[k],
    ensures
        same < encode_utf8(a.text@).len() && same < encode_utf8(b.text@).len() && encode_utf8(
            a.text@,
        )[same] != encode_utf8(b.text@)[same] ==> (url_before(a, b) <==> encode_utf8(a.text@)[same]
            < encode_utf8(b.text@)[same]),
        same == encode_utf8(a.text@).len() ==> (url_before(a, b) <==> same < encode_utf8(
            b.text@,
        ).len()),
        same == encode_utf8(b.text@).len() ==> !url_before(a, b),
{
    lemma_bytes_go_by_difference(encode_utf8(a.text@), encode_utf8(b.text@), same);
}

/// Where two texts agree up to some byte, their order is that of what follows.
proof fn lemma_bytes_go_by_difference(a: Seq<u8>, b: Seq<u8>, same: int)
    requires
        0 <= same <= a.len(),
        same <= b.len(),
        forall|k: int| 0 <= k < same ==> #[trigger] a[k] == b[k],
    ensures
        same < a.len() && same < b.len() && a[same] != b[same] ==> (bytes_before(a, b) <==> a[same]
            < b[same]),
        same == a.len() ==> (bytes_before(a, b) <==> same < b.len()),
        same == b.len() ==> !bytes_before(a, b),
    decreases same,
{
    if same > 0 {
        assert(a[0] == b[0]);
        assert forall|k: int| 0 <= k < same - 1 implies #[trigger] a.skip(1)[k] == b.skip(1)[k] by {
            assert(a[k + 1] == b[k + 1]);
        }
        lemma_bytes_go_by_difference(a.skip(1), b.skip(1), same - 1);
    }
}

/// In a valid map each address comes before all that follow it, so that none is
/// there twice.
pub proof fn law_entries_are_in_order(diagnostics: Diagnostics, i: int, j: int)
    requires
        diagnostics.wf(),
        0 <= i < j < diagnostics.entries@.len(),
    ensures
        bytes_before(
            encode_utf8(diagnostics.entries@[i].url.text@),
            encode_utf8(diagnostics.entries@[j].url.text@),
        ),
        diagnostics.entries@[i].url.text@ != diagnostics.entries@[j].url.text@,
{
    let entries = diagnostics.entries@;
    assert(url_before(entries[i].url, entries[j].url));
    lemma_bytes_total(encode_utf8(entries[i].url.text@), encode_utf8(entries[j].url.text@));
}

/// To show diagnostics puts one list on top, with exactly these items, in the
/// styles of the theme, and changes nothing else.
pub proof fn law_list_is_shown_on_top(
    before: Context,
    after: Context,
    items: Seq<PickerDiagnostic>,
    format: DiagnosticsFormat,
    current_path: Option<Uri>,
)
    requires
        shows_diagnostics(before, after, items, format, current_path),
    ensures
        after.editor == before.editor,
        after.callbacks == before.callbacks,
        after.layers@.len() == before.layers@.len() + 1,
        after.layers@.drop_last() =~= before.layers@,
        after.layers@.last() is Diagnostics,
        ({
            let picker = after.layers@.last()->Diagnostics_0;
            &&& picker.items@ == items
            &&& picker.styles == before.editor.theme
            &&& picker.format == format
            &&& picker.current_path == current_path
            &&& !picker.truncate_start
        }),
{
}

} // verus!
