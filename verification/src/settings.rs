//! What the settings form offers for audio sources: the labels of the
//! kinds and the entries of the source drop-down for a chosen kind.

use vstd::prelude::*;
use crate::capture::{first_match, is_first_match, lemma_first_match_is, lemma_first_match_none};
use crate::source::{source_views, AudioSourceDescriptor, AudioSourceKind, SourceView};
use crate::text::str_eq;

verus! {

/// The drop-down shows a source for a chosen kind when the source is of
/// that kind.
pub fn audio_source_matches(selected: &AudioSourceKind, actual: &AudioSourceKind) -> (r: bool)
    ensures
        r == (*selected == *actual),
{
    match selected {
        AudioSourceKind::Microphone => *actual == AudioSourceKind::Microphone,
        AudioSourceKind::DesktopOutput => *actual == AudioSourceKind::DesktopOutput,
        AudioSourceKind::OutputDevice => *actual == AudioSourceKind::OutputDevice,
        AudioSourceKind::Application => *actual == AudioSourceKind::Application,
    }
}

/// The label of the `default` entry for each kind.
pub open spec fn default_label_spec(kind: AudioSourceKind) -> Seq<char> {
    match kind {
        AudioSourceKind::Microphone => "Default microphone"@,
        AudioSourceKind::DesktopOutput => "Default desktop audio"@,
        AudioSourceKind::OutputDevice => "Default output device"@,
        AudioSourceKind::Application => "Default application"@,
    }
}

/// The label of each kind in front of a source name.
pub open spec fn kind_label_spec(kind: AudioSourceKind) -> Seq<char> {
    match kind {
        AudioSourceKind::Microphone => "Microphone"@,
        AudioSourceKind::DesktopOutput => "Desktop audio"@,
        AudioSourceKind::OutputDevice => "Output"@,
        AudioSourceKind::Application => "Application"@,
    }
}

/// The label of the `default` entry.
pub fn default_audio_source_label(kind: &AudioSourceKind) -> (r: &'static str)
    ensures
        r@ == default_label_spec(*kind),
{
    match kind {
        AudioSourceKind::Microphone => "Default microphone",
        AudioSourceKind::DesktopOutput => "Default desktop audio",
        AudioSourceKind::OutputDevice => "Default output device",
        AudioSourceKind::Application => "Default application",
    }
}

/// The label of a kind in front of a source name.
pub fn audio_source_kind_label(kind: &AudioSourceKind) -> (r: &'static str)
    ensures
        r@ == kind_label_spec(*kind),
{
    match kind {
        AudioSourceKind::Microphone => "Microphone",
        AudioSourceKind::DesktopOutput => "Desktop audio",
        AudioSourceKind::OutputDevice => "Output",
        AudioSourceKind::Application => "Application",
    }
}

/// One entry of a drop-down: the id it stands for and the label shown.
#[derive(Debug, Clone)]
pub struct ComboEntry {
    pub id: String,
    pub label: String,
}

/// The value of a drop-down entry.
pub struct EntryView {
    pub id: Seq<char>,
    pub label: Seq<char>,
}

impl View for ComboEntry {
    type V = EntryView;

    open spec fn view(&self) -> EntryView {
        EntryView { id: self.id@, label: self.label@ }
    }
}

/// The values of a list of entries.
pub open spec fn entry_views(s: Seq<ComboEntry>) -> Seq<EntryView> {
    s.map_values(|e: ComboEntry| e@)
}

/// The entries of the source drop-down and the one selected.
#[derive(Debug, Clone)]
pub struct SourceChoices {
    pub entries: Vec<ComboEntry>,
    pub active: usize,
}

/// The label of a source: its kind's label, its name, and ` (default)`
/// for the default device.
pub open spec fn source_label(s: SourceView) -> Seq<char> {
    kind_label_spec(s.kind) + ": "@ + s.name + if s.is_default {
        " (default)"@
    } else {
        Seq::empty()
    }
}

/// The entries of the listed sources of kind `kind`, in order.
pub open spec fn matching_entries(kind: AudioSourceKind, list: Seq<SourceView>) -> Seq<EntryView>
    decreases list.len(),
{
    if list.len() == 0 {
        Seq::empty()
    } else {
        let prev = matching_entries(kind, list.drop_last());
        if list.last().kind == kind {
            prev.push(EntryView { id: list.last().id, label: source_label(list.last()) })
        } else {
            prev
        }
    }
}

/// An entry with id `id`.
pub open spec fn has_entry_id(id: Seq<char>) -> spec_fn(EntryView) -> bool {
    |e: EntryView| e.id == id
}

/// The `default` entry followed by the entries of the listed sources of
/// kind `kind`.
pub open spec fn listed_entries(kind: AudioSourceKind, list: Seq<SourceView>) -> Seq<EntryView> {
    seq![EntryView { id: "default"@, label: default_label_spec(kind) }] + matching_entries(
        kind,
        list,
    )
}

/// The source drop-down: the `default` entry and the sources of the kind.
/// The entry whose id is the current source id is selected. A current id
/// that is not listed (and is not `default`) gets a `Manual:` entry of its
/// own, which is selected; with no current id the `default` entry is. When
/// no source of a desktop, output or application kind is listed and the
/// current id was not found, a `No matching source found` entry ends the
/// list.
pub open spec fn source_choices_spec(
    kind: AudioSourceKind,
    list: Seq<SourceView>,
    current: Seq<char>,
) -> (Seq<EntryView>, int) {
    let base = listed_entries(kind, list);
    if current.len() > 0 && first_match(base, has_entry_id(current)) is Some {
        (base, first_match(base, has_entry_id(current))->0)
    } else {
        let (with_manual, active) = if current.len() > 0 && current != "default"@ {
            (base.push(EntryView { id: current, label: "Manual: "@ + current }), base.len() as int)
        } else {
            (base, 0int)
        };
        if matching_entries(kind, list).len() == 0 && kind != AudioSourceKind::Microphone {
            (
                with_manual.push(
                    EntryView { id: "unsupported"@, label: "No matching source found"@ },
                ),
                active,
            )
        } else {
            (with_manual, active)
        }
    }
}

fn new_entry(id: &str, label: &str) -> (r: ComboEntry)
    ensures
        r@ == (EntryView { id: id@, label: label@ }),
{
    ComboEntry { id: String::from_str(id), label: String::from_str(label) }
}

fn source_entry(source: &AudioSourceDescriptor) -> (r: ComboEntry)
    ensures
        r@ == (EntryView { id: source@.id, label: source_label(source@) }),
{
    let mut label = String::from_str(audio_source_kind_label(&source.kind));
    label.append(": ");
    label.append(source.name.as_str());
    if source.is_default {
        label.append(" (default)");
    } else {
        proof {
            reveal_strlit("");
        }
        assert(label@ =~= label@ + Seq::<char>::empty());
    }
    ComboEntry { id: source.id.clone(), label }
}

/// The entries and selection of the source drop-down for kind `kind`,
/// given the listed sources and the current source id (see
/// `source_choices_spec`).
pub fn audio_source_choices(
    kind: &AudioSourceKind,
    sources: &Vec<AudioSourceDescriptor>,
    current_source_id: &str,
) -> (r: SourceChoices)
    ensures
        (entry_views(r.entries@), r.active as int) == source_choices_spec(
            *kind,
            source_views(sources@),
            current_source_id@,
        ),
{
    let ghost list = source_views(sources@);
    let mut entries: Vec<ComboEntry> = Vec::new();
    entries.push(new_entry("default", default_audio_source_label(kind)));
    assert(entry_views(entries@) =~= seq![
        EntryView { id: "default"@, label: default_label_spec(*kind) },
    ]);
    let mut matched: usize = 0;
    let len = sources.len();
    let mut i: usize = 0;
    while i < len
        invariant
            len == sources@.len(),
            list == source_views(sources@),
            i <= len,
            matched <= i,
            matched == matching_entries(*kind, list.take(i as int)).len(),
            entry_views(entries@) == seq![
                EntryView { id: "default"@, label: default_label_spec(*kind) },
            ] + matching_entries(*kind, list.take(i as int)),
        decreases len - i,
    {
        assert(list.take(i + 1).drop_last() =~= list.take(i as int));
        let source = &sources[i];
        let ghost before = entry_views(entries@);
        assert(list.take(i + 1).last() == source@);
        if audio_source_matches(kind, &source.kind) {
            let entry = source_entry(source);
            entries.push(entry);
            assert(entry_views(entries@) =~= before.push(entry@));
            matched = matched + 1;
        } else {
            assert(entry_views(entries@) =~= before);
        }
        assert(entry_views(entries@) =~= seq![
            EntryView { id: "default"@, label: default_label_spec(*kind) },
        ] + matching_entries(*kind, list.take(i + 1)));
        i = i + 1;
    }
    assert(list.take(len as int) =~= list);
    let ghost base = entry_views(entries@);
    assert(base == listed_entries(*kind, list));
    let current_len = current_source_id.unicode_len();
    if current_len != 0 {
        let n = entries.len();
        let mut j: usize = 0;
        while j < n
            invariant
                n == entries@.len(),
                base == entry_views(entries@),
                base == listed_entries(*kind, list),
                list == source_views(sources@),
                current_source_id@.len() > 0,
                j <= n,
                forall|k: int| 0 <= k < j ==> !has_entry_id(current_source_id@)(base[k]),
            decreases n - j,
        {
            if str_eq(entries[j].id.as_str(), current_source_id) {
                assert(has_entry_id(current_source_id@)(base[j as int]));
                proof {
                    lemma_first_match_is(base, has_entry_id(current_source_id@), j as int);
                }
                return SourceChoices { entries, active: j };
            }
            j = j + 1;
        }
        proof {
            lemma_first_match_none(base, has_entry_id(current_source_id@));
        }
    }
    let mut active: usize = 0;
    if current_len != 0 && !str_eq(current_source_id, "default") {
        let mut label = String::from_str("Manual: ");
        label.append(current_source_id);
        active = entries.len();
        entries.push(ComboEntry { id: String::from_str(current_source_id), label });
    }
    let ghost with_manual = entry_views(entries@);
    let wants_placeholder = match kind {
        AudioSourceKind::Microphone => false,
        _ => true,
    };
    if matched == 0 && wants_placeholder {
        entries.push(new_entry("unsupported", "No matching source found"));
        assert(entry_views(entries@) =~= with_manual.push(
            EntryView { id: "unsupported"@, label: "No matching source found"@ },
        ));
    }
    SourceChoices { entries, active }
}

/// A list without sources of a kind has no entries for it.
pub proof fn lemma_no_matching_entries(kind: AudioSourceKind, list: Seq<SourceView>)
    requires
        forall|i: int| 0 <= i < list.len() ==> list[i].kind != kind,
    ensures
        matching_entries(kind, list).len() == 0,
    decreases list.len(),
{
    if list.len() > 0 {
        lemma_no_matching_entries(kind, list.drop_last());
        assert(list.last() == list[list.len() - 1]);
    }
}

/// For every kind but microphones: when no listed source has the kind and
/// the current id is not `default` (so not among the entries), the
/// drop-down offers the `default` entry first and ends with the
/// `No matching source found` placeholder; a non-empty current id gets a
/// `Manual:` entry between them, which is selected.
pub proof fn lemma_placeholder_without_sources(
    kind: AudioSourceKind,
    list: Seq<SourceView>,
    current: Seq<char>,
)
    requires
        kind != AudioSourceKind::Microphone,
        forall|i: int| 0 <= i < list.len() ==> list[i].kind != kind,
        current != "default"@,
    ensures
        ({
            let (entries, active) = source_choices_spec(kind, list, current);
            &&& entries[0] == EntryView { id: "default"@, label: default_label_spec(kind) }
            &&& entries.last() == EntryView { id: "unsupported"@, label: "No matching source found"@ }
            &&& entries.len() == if current.len() == 0 { 2int } else { 3int }
            &&& current.len() > 0 ==> active == 1 && entries[1] == EntryView {
                id: current,
                label: "Manual: "@ + current,
            }
        }),
{
    lemma_no_matching_entries(kind, list);
    let base = listed_entries(kind, list);
    assert(matching_entries(kind, list) =~= Seq::<EntryView>::empty());
    assert(base =~= seq![EntryView { id: "default"@, label: default_label_spec(kind) }]);
    assert forall|j: int| 0 <= j < base.len() implies !has_entry_id(current)(base[j]) by {
        assert(base[j].id == "default"@);
    }
    lemma_first_match_none(base, has_entry_id(current));
}

/// The source drop-down always selects an entry, and it is the entry of
/// the current source id when there is one, else the `default` entry.
pub proof fn lemma_source_choices_select_current(
    kind: AudioSourceKind,
    list: Seq<SourceView>,
    current: Seq<char>,
)
    ensures
        ({
            let (entries, active) = source_choices_spec(kind, list, current);
            &&& 0 <= active < entries.len()
            &&& current.len() > 0 ==> entries[active].id == current
            &&& current.len() == 0 ==> active == 0 && entries[0].id == "default"@
        }),
{
    let base = listed_entries(kind, list);
    let p = has_entry_id(current);
    if current == "default"@ {
        assert(is_first_match(base, p, 0));
    }
    if current.len() > 0 && first_match(base, p) is Some {
        let i = choose|i: int| is_first_match(base, p, i);
        assert(is_first_match(base, p, i));
    }
}

} // verus!
