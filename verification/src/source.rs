//! Audio source kinds, source descriptors and the audio source list: the
//! PulseAudio/PipeWire sources that `pactl` reports, then the default input
//! device, then the other input devices, each id listed once.

use vstd::prelude::*;
use crate::json::{json_array_parse, json_string_at, json_string_leaves, parse_json_array};
use crate::text::{ends_with, str_eq, strip_prefix, strip_prefix_spec};

verus! {

/// The kind of audio a source carries.
#[derive(Debug, Clone, Copy, PartialEq, Eq, Structural)]
pub enum AudioSourceKind {
    Microphone,
    DesktopOutput,
    OutputDevice,
    Application,
}

/// The name of each kind, as `as_str` gives it and `parse` reads it.
pub open spec fn kind_name(kind: AudioSourceKind) -> Seq<char> {
    match kind {
        AudioSourceKind::Microphone => "microphone"@,
        AudioSourceKind::DesktopOutput => "desktop-output"@,
        AudioSourceKind::OutputDevice => "output-device"@,
        AudioSourceKind::Application => "application"@,
    }
}

/// The kind named `value`, if any.
pub open spec fn parse_kind_spec(value: Seq<char>) -> Option<AudioSourceKind> {
    if value == "microphone"@ {
        Some(AudioSourceKind::Microphone)
    } else if value == "desktop-output"@ {
        Some(AudioSourceKind::DesktopOutput)
    } else if value == "output-device"@ {
        Some(AudioSourceKind::OutputDevice)
    } else if value == "application"@ {
        Some(AudioSourceKind::Application)
    } else {
        None
    }
}

/// The first part of the message of `UnsupportedSourceKind`.
pub open spec fn unsupported_kind_lead() -> Seq<char> {
    "Unsupported audio source kind '"@
}

/// The last part of the message of `UnsupportedSourceKind`.
pub open spec fn unsupported_kind_tail() -> Seq<char> {
    "'. Expected microphone, desktop-output, output-device, or application"@
}

/// A source kind name that `AudioSourceKind::parse` does not know.
#[derive(Debug, Clone)]
pub struct UnsupportedSourceKind {
    pub value: String,
}

impl UnsupportedSourceKind {
    /// The error message, naming the refused value and the accepted ones.
    pub fn message(&self) -> (r: String)
        ensures
            r@ == unsupported_kind_lead() + self.value@ + unsupported_kind_tail(),
    {
        let mut r = String::from_str("Unsupported audio source kind '");
        r.append(self.value.as_str());
        r.append("'. Expected microphone, desktop-output, output-device, or application");
        r
    }
}

impl AudioSourceKind {
    /// Reads a kind from its name.
    pub fn parse(value: &str) -> (r: Result<AudioSourceKind, UnsupportedSourceKind>)
        ensures
            match r {
                Ok(kind) => parse_kind_spec(value@) == Some(kind),
                Err(e) => parse_kind_spec(value@) is None && e.value@ == value@,
            },
    {
        if str_eq(value, "microphone") {
            Ok(AudioSourceKind::Microphone)
        } else if str_eq(value, "desktop-output") {
            Ok(AudioSourceKind::DesktopOutput)
        } else if str_eq(value, "output-device") {
            Ok(AudioSourceKind::OutputDevice)
        } else if str_eq(value, "application") {
            Ok(AudioSourceKind::Application)
        } else {
            Err(UnsupportedSourceKind { value: String::from_str(value) })
        }
    }

    /// The name of the kind.
    pub fn as_str(&self) -> (r: &'static str)
        ensures
            r@ == kind_name(*self),
    {
        match self {
            AudioSourceKind::Microphone => "microphone",
            AudioSourceKind::DesktopOutput => "desktop-output",
            AudioSourceKind::OutputDevice => "output-device",
            AudioSourceKind::Application => "application",
        }
    }
}

/// Reading the name of a kind gives the kind back, and the four names are
/// distinct.
pub proof fn lemma_kind_name_roundtrip(kind: AudioSourceKind)
    ensures
        parse_kind_spec(kind_name(kind)) == Some(kind),
{
    reveal_strlit("microphone");
    reveal_strlit("desktop-output");
    reveal_strlit("output-device");
    reveal_strlit("application");
    assert("microphone"@.len() == 10);
    assert("desktop-output"@.len() == 14);
    assert("output-device"@.len() == 13);
    assert("application"@.len() == 11);
}

/// A name that `parse` accepts is the name of the kind it gives.
pub proof fn lemma_parsed_kind_has_name(value: Seq<char>)
    ensures
        parse_kind_spec(value) matches Some(kind) ==> kind_name(kind) == value,
{
}

/// Which source is captured: its kind and its id (a device name, a
/// `pulse:` source id, or `default`).
#[derive(Debug, Clone)]
pub struct AudioCaptureConfig {
    pub source_kind: AudioSourceKind,
    pub source_id: String,
}

/// One audio source that the host offers.
#[derive(Debug, Clone)]
pub struct AudioSourceDescriptor {
    pub id: String,
    pub name: String,
    pub kind: AudioSourceKind,
    pub is_default: bool,
}

/// The value of a source descriptor.
pub struct SourceView {
    pub id: Seq<char>,
    pub name: Seq<char>,
    pub kind: AudioSourceKind,
    pub is_default: bool,
}

impl View for AudioSourceDescriptor {
    type V = SourceView;

    open spec fn view(&self) -> SourceView {
        SourceView { id: self.id@, name: self.name@, kind: self.kind, is_default: self.is_default }
    }
}

/// The values of a list of descriptors.
pub open spec fn source_views(s: Seq<AudioSourceDescriptor>) -> Seq<SourceView> {
    s.map_values(|d: AudioSourceDescriptor| d@)
}

/// Some source in `list` has id `id`.
pub open spec fn has_source_id(list: Seq<SourceView>, id: Seq<char>) -> bool {
    exists|i: int| 0 <= i < list.len() && list[i].id == id
}

/// `list` with `source` added at the end, unless a source with its id is
/// already listed.
pub open spec fn push_unique_spec(list: Seq<SourceView>, source: SourceView) -> Seq<SourceView> {
    if has_source_id(list, source.id) {
        list
    } else {
        list.push(source)
    }
}

/// No two sources in `list` share an id.
pub open spec fn ids_distinct(list: Seq<SourceView>) -> bool {
    forall|i: int, j: int| 0 <= i < j < list.len() ==> list[i].id != list[j].id
}

/// Adds `source` unless a source with the same id is already listed.
pub fn push_unique_source(sources: &mut Vec<AudioSourceDescriptor>, source: AudioSourceDescriptor)
    ensures
        source_views(final(sources)@) == push_unique_spec(source_views(old(sources)@), source@),
{
    let len = sources.len();
    let mut i: usize = 0;
    while i < len
        invariant
            len == sources@.len(),
            *sources == *old(sources),
            i <= len,
            forall|k: int| 0 <= k < i ==> sources@[k].id@ != source.id@,
        decreases len - i,
    {
        if sources[i].id == source.id {
            assert(source_views(sources@)[i as int].id == source.id@);
            return;
        }
        i = i + 1;
    }
    assert(!has_source_id(source_views(sources@), source.id@));
    sources.push(source);
    assert(source_views(sources@) =~= source_views(old(sources)@).push(source@));
}

/// Adding a source keeps the ids of a list distinct, and afterwards a
/// source with that id is listed.
pub proof fn lemma_push_unique_keeps_ids_distinct(list: Seq<SourceView>, source: SourceView)
    requires
        ids_distinct(list),
    ensures
        ids_distinct(push_unique_spec(list, source)),
        has_source_id(push_unique_spec(list, source), source.id),
{
    if !has_source_id(list, source.id) {
        let r = list.push(source);
        assert(r[list.len() as int].id == source.id);
    }
}

/// The prefix that marks the id of a PulseAudio/PipeWire source.
pub open spec fn pulse_prefix() -> Seq<char> {
    "pulse:"@
}

/// The PulseAudio source name in a `pulse:` source id.
pub fn pulse_source_name(source_id: &str) -> (r: Option<&str>)
    ensures
        match r {
            Some(name) => strip_prefix_spec(source_id@, pulse_prefix()) == Some(name@),
            None => strip_prefix_spec(source_id@, pulse_prefix()) is None,
        },
{
    strip_prefix(source_id, "pulse:")
}

/// The id of the PulseAudio source `name` gives `name` back.
pub proof fn lemma_pulse_id_roundtrip(name: Seq<char>)
    ensures
        strip_prefix_spec(pulse_prefix() + name, pulse_prefix()) == Some(name),
{
    let id = pulse_prefix() + name;
    assert(pulse_prefix() =~= id.subrange(0, pulse_prefix().len() as int));
    assert(id.skip(pulse_prefix().len() as int) =~= name);
}

// ---------------------------------------------------------------------------
// Sources reported by `pactl -f json list sources`
// ---------------------------------------------------------------------------

/// The string at `pointer` in a JSON value's leaves, if there is one.
pub open spec fn json_text(leaves: Map<Seq<char>, Seq<char>>, pointer: Seq<char>) -> Option<
    Seq<char>,
> {
    if leaves.contains_key(pointer) {
        Some(leaves[pointer])
    } else {
        None
    }
}

/// The text, or the empty text when there is none.
pub open spec fn text_or_empty(t: Option<Seq<char>>) -> Seq<char> {
    match t {
        Some(s) => s,
        None => Seq::empty(),
    }
}

/// The fields of one `pactl` source entry that the listing reads; each is
/// the JSON string found there, if any.
#[derive(Debug, Clone)]
pub struct PactlEntry {
    pub name: Option<String>,
    pub description: Option<String>,
    pub media_class: Option<String>,
    pub device_class: Option<String>,
    pub monitor_source: Option<String>,
}

/// The value of a `pactl` entry.
pub struct PactlEntryView {
    pub name: Option<Seq<char>>,
    pub description: Option<Seq<char>>,
    pub media_class: Option<Seq<char>>,
    pub device_class: Option<Seq<char>>,
    pub monitor_source: Option<Seq<char>>,
}

impl View for PactlEntry {
    type V = PactlEntryView;

    open spec fn view(&self) -> PactlEntryView {
        PactlEntryView {
            name: option_text(self.name),
            description: option_text(self.description),
            media_class: option_text(self.media_class),
            device_class: option_text(self.device_class),
            monitor_source: option_text(self.monitor_source),
        }
    }
}

/// The fields of a `pactl` entry, read from the strings of its JSON value:
/// `name`, `description`, `monitor_source` and the `media.class` and
/// `device.class` properties.
pub open spec fn pactl_entry_fields(leaves: Map<Seq<char>, Seq<char>>) -> PactlEntryView {
    PactlEntryView {
        name: json_text(leaves, "/name"@),
        description: json_text(leaves, "/description"@),
        media_class: json_text(leaves, "/properties/media.class"@),
        device_class: json_text(leaves, "/properties/device.class"@),
        monitor_source: json_text(leaves, "/monitor_source"@),
    }
}

/// A `pactl` source is a monitor of an output: it names a monitor source,
/// its device class is `monitor`, its media class is `Audio/Sink`, or its
/// name ends in `.monitor`.
pub open spec fn pulse_is_monitor(entry: PactlEntryView, name: Seq<char>) -> bool {
    ||| text_or_empty(entry.monitor_source).len() > 0
    ||| text_or_empty(entry.device_class) == "monitor"@
    ||| text_or_empty(entry.media_class) == "Audio/Sink"@
    ||| ".monitor"@.is_suffix_of(name)
}

/// The source that a `pactl` entry describes; none when it has no name.
/// The id is `pulse:` and the name, the name shown is the description (or
/// the name), and monitors are desktop-output sources.
pub open spec fn pulse_source_spec(entry: PactlEntryView) -> Option<SourceView> {
    let name = text_or_empty(entry.name);
    if name.len() == 0 {
        None
    } else {
        Some(
            SourceView {
                id: pulse_prefix() + name,
                name: match entry.description {
                    Some(d) => d,
                    None => name,
                },
                kind: if pulse_is_monitor(entry, name) {
                    AudioSourceKind::DesktopOutput
                } else {
                    AudioSourceKind::Microphone
                },
                is_default: false,
            },
        )
    }
}

/// The source that one `pactl` JSON entry describes.
pub open spec fn pulse_entry(leaves: Map<Seq<char>, Seq<char>>) -> Option<SourceView> {
    pulse_source_spec(pactl_entry_fields(leaves))
}

/// `list` after adding the sources of the `pactl` entries, in order.
pub open spec fn add_pactl_entries_spec(list: Seq<SourceView>, entries: Seq<PactlEntryView>) -> Seq<
    SourceView,
>
    decreases entries.len(),
{
    if entries.len() == 0 {
        list
    } else {
        let prev = add_pactl_entries_spec(list, entries.drop_last());
        match pulse_source_spec(entries.last()) {
            Some(source) => push_unique_spec(prev, source),
            None => prev,
        }
    }
}

/// The values of a list of `pactl` entries.
pub open spec fn pactl_entry_views(entries: Seq<PactlEntry>) -> Seq<PactlEntryView> {
    entries.map_values(|e: PactlEntry| e@)
}

/// `list` after adding the sources of the `pactl` JSON entries, in order.
pub open spec fn add_pulse_entries(
    list: Seq<SourceView>,
    entries: Seq<Map<Seq<char>, Seq<char>>>,
) -> Seq<SourceView> {
    add_pactl_entries_spec(
        list,
        entries.map_values(|leaves: Map<Seq<char>, Seq<char>>| pactl_entry_fields(leaves)),
    )
}

/// The entries of `pactl`'s JSON output; none when it is not a JSON array.
pub open spec fn pactl_entries(json: Seq<u8>) -> Seq<Map<Seq<char>, Seq<char>>> {
    match json_array_parse(json) {
        Some(entries) => entries,
        None => Seq::empty(),
    }
}

fn text_or_new(t: &Option<String>) -> (r: String)
    ensures
        r@ == text_or_empty(option_text(*t)),
{
    match t {
        Some(t) => t.clone(),
        None => String::new(),
    }
}

/// The source that a `pactl` entry describes (see `pulse_source_spec`).
pub fn pulse_source_from_entry(entry: &PactlEntry) -> (r: Option<AudioSourceDescriptor>)
    ensures
        match r {
            Some(d) => pulse_source_spec(entry@) == Some(d@),
            None => pulse_source_spec(entry@) is None,
        },
{
    let ghost view = entry@;
    let name = text_or_new(&entry.name);
    if name.unicode_len() == 0 {
        return None;
    }
    let description = match &entry.description {
        Some(d) => d.clone(),
        None => name.clone(),
    };
    let media_class = text_or_new(&entry.media_class);
    let device_class = text_or_new(&entry.device_class);
    let monitor_source = text_or_new(&entry.monitor_source);
    let is_monitor = monitor_source.unicode_len() != 0 || str_eq(device_class.as_str(), "monitor")
        || str_eq(media_class.as_str(), "Audio/Sink") || ends_with(name.as_str(), ".monitor");
    assert(is_monitor == pulse_is_monitor(view, name@));
    let kind = if is_monitor {
        AudioSourceKind::DesktopOutput
    } else {
        AudioSourceKind::Microphone
    };
    let mut id = String::from_str("pulse:");
    id.append(name.as_str());
    Some(AudioSourceDescriptor { id, name: description, kind, is_default: false })
}

/// Reads the fields of a `pactl` entry from its JSON value.
fn pactl_entry_from_json(value: &serde_json::Value) -> (r: PactlEntry)
    ensures
        r@ == pactl_entry_fields(json_string_leaves(*value)),
{
    PactlEntry {
        name: json_string_at(value, "/name"),
        description: json_string_at(value, "/description"),
        media_class: json_string_at(value, "/properties/media.class"),
        device_class: json_string_at(value, "/properties/device.class"),
        monitor_source: json_string_at(value, "/monitor_source"),
    }
}

/// Adds the sources of `pactl` entries, in order: each named entry becomes
/// a `pulse:` source, a desktop-output source when it is a monitor and a
/// microphone otherwise, unless its id is listed already.
pub fn add_pactl_entries(sources: &mut Vec<AudioSourceDescriptor>, entries: Vec<PactlEntry>)
    ensures
        source_views(final(sources)@) == add_pactl_entries_spec(
            source_views(old(sources)@),
            pactl_entry_views(entries@),
        ),
{
    let ghost views = pactl_entry_views(entries@);
    let len = entries.len();
    let mut i: usize = 0;
    while i < len
        invariant
            len == entries@.len(),
            i <= len,
            views == pactl_entry_views(entries@),
            source_views(sources@) == add_pactl_entries_spec(
                source_views(old(sources)@),
                views.take(i as int),
            ),
        decreases len - i,
    {
        assert(views.take(i + 1).drop_last() =~= views.take(i as int));
        match pulse_source_from_entry(&entries[i]) {
            Some(source) => push_unique_source(sources, source),
            None => {},
        }
        i = i + 1;
    }
    assert(views.take(len as int) =~= views);
}

/// Adds the sources in the JSON output of `pactl -f json list sources`
/// (see `add_pactl_entries`). Output that is not a JSON array adds nothing.
pub fn add_pulse_sources(sources: &mut Vec<AudioSourceDescriptor>, pactl_json: &[u8])
    ensures
        source_views(final(sources)@) == add_pulse_entries(
            source_views(old(sources)@),
            pactl_entries(pactl_json@),
        ),
{
    let values = match parse_json_array(pactl_json) {
        Some(values) => values,
        None => {
            assert(pactl_entries(pactl_json@).map_values(
                |leaves: Map<Seq<char>, Seq<char>>| pactl_entry_fields(leaves),
            ) =~= Seq::<PactlEntryView>::empty());
            return;
        },
    };
    let ghost maps = pactl_entries(pactl_json@);
    let ghost fields = maps.map_values(
        |leaves: Map<Seq<char>, Seq<char>>| pactl_entry_fields(leaves),
    );
    let len = values.len();
    let mut entries: Vec<PactlEntry> = Vec::new();
    let mut i: usize = 0;
    while i < len
        invariant
            len == values@.len(),
            i <= len,
            maps == values@.map_values(|v: serde_json::Value| json_string_leaves(v)),
            fields == maps.map_values(
                |leaves: Map<Seq<char>, Seq<char>>| pactl_entry_fields(leaves),
            ),
            entries@.len() == i,
            forall|j: int| 0 <= j < i ==> #[trigger] entries@[j]@ == fields[j],
        decreases len - i,
    {
        entries.push(pactl_entry_from_json(&values[i]));
        i = i + 1;
    }
    assert(pactl_entry_views(entries@) =~= fields);
    add_pactl_entries(sources, entries);
}

// ---------------------------------------------------------------------------
// Input devices
// ---------------------------------------------------------------------------

/// The text of an optional string.
pub open spec fn option_text(o: Option<String>) -> Option<Seq<char>> {
    match o {
        Some(s) => Some(s@),
        None => None,
    }
}

/// The text, or `fallback` when there is none.
pub open spec fn text_or(t: Option<Seq<char>>, fallback: Seq<char>) -> Seq<char> {
    match t {
        Some(s) => s,
        None => fallback,
    }
}

/// The entry for the default input device, given whether there is one and
/// the name it reported (none when reading its name failed).
pub open spec fn default_device_entry(default_device: Option<Option<Seq<char>>>) -> Option<
    SourceView,
> {
    match default_device {
        Some(name) => {
            let n = text_or(name, "default input"@);
            Some(SourceView { id: n, name: n, kind: AudioSourceKind::Microphone, is_default: true })
        },
        None => None,
    }
}

/// The entry for an enumerated input device.
pub open spec fn input_device_entry(name: Option<Seq<char>>, default_name: Option<Seq<char>>) -> SourceView {
    let n = text_or(name, "unknown input"@);
    SourceView {
        id: n,
        name: n,
        kind: AudioSourceKind::Microphone,
        is_default: default_name == Some(n),
    }
}

/// `list` after adding the enumerated input devices, in order.
pub open spec fn add_input_entries(
    list: Seq<SourceView>,
    names: Seq<Option<Seq<char>>>,
    default_name: Option<Seq<char>>,
) -> Seq<SourceView>
    decreases names.len(),
{
    if names.len() == 0 {
        list
    } else {
        push_unique_spec(
            add_input_entries(list, names.drop_last(), default_name),
            input_device_entry(names.last(), default_name),
        )
    }
}

/// The name of the default device, when there is one and its name was read.
pub open spec fn default_device_name(default_device: Option<Option<Seq<char>>>) -> Option<Seq<char>> {
    match default_device {
        Some(name) => name,
        None => None,
    }
}

/// The whole source list: the `pactl` sources, then the default input
/// device, then the enumerated input devices.
pub open spec fn audio_sources_spec(
    pactl_json: Option<Seq<u8>>,
    default_device: Option<Option<Seq<char>>>,
    input_devices: Seq<Option<Seq<char>>>,
) -> Seq<SourceView> {
    let pulse = match pactl_json {
        Some(json) => add_pulse_entries(Seq::empty(), pactl_entries(json)),
        None => Seq::empty(),
    };
    let with_default = match default_device_entry(default_device) {
        Some(d) => push_unique_spec(pulse, d),
        None => pulse,
    };
    add_input_entries(with_default, input_devices, default_device_name(default_device))
}

/// The texts of a list of optional names.
pub open spec fn option_texts(names: Seq<Option<String>>) -> Seq<Option<Seq<char>>> {
    names.map_values(|o: Option<String>| option_text(o))
}

/// What the host reported of its default input device, as text.
pub open spec fn default_device_text(default_device: Option<Option<String>>) -> Option<Option<Seq<char>>> {
    match default_device {
        Some(n) => Some(option_text(n)),
        None => None,
    }
}

/// A copy of an optional string.
fn copy_name(name: &Option<String>) -> (r: Option<String>)
    ensures
        option_text(r) == option_text(*name),
{
    match name {
        Some(n) => Some(n.clone()),
        None => None,
    }
}

/// Builds the audio source list from what the host reported: the output
/// of `pactl -f json list sources` when that command succeeded, the default
/// input device (with its name, when it could be read), and the names of
/// the enumerated input devices. Each id is listed once; the first source
/// with an id wins.
pub fn list_audio_sources(
    pactl_json: Option<&[u8]>,
    default_device: Option<Option<String>>,
    input_devices: Vec<Option<String>>,
) -> (r: Vec<AudioSourceDescriptor>)
    ensures
        source_views(r@) == audio_sources_spec(
            match pactl_json {
                Some(j) => Some(j@),
                None => None,
            },
            default_device_text(default_device),
            option_texts(input_devices@),
        ),
{
    let mut sources: Vec<AudioSourceDescriptor> = Vec::new();
    assert(source_views(sources@) =~= Seq::<SourceView>::empty());
    match pactl_json {
        Some(json) => add_pulse_sources(&mut sources, json),
        None => {},
    }
    let ghost dd = default_device_text(default_device);
    let default_name: Option<String> = match &default_device {
        Some(n) => copy_name(n),
        None => None,
    };
    match default_device {
        Some(name) => {
            let n = match name {
                Some(n) => n,
                None => String::from_str("default input"),
            };
            let entry = AudioSourceDescriptor {
                id: n.clone(),
                name: n,
                kind: AudioSourceKind::Microphone,
                is_default: true,
            };
            push_unique_source(&mut sources, entry);
        },
        None => {},
    }
    assert(option_text(default_name) == default_device_name(dd));
    let ghost names = option_texts(input_devices@);
    let ghost start = source_views(sources@);
    let len = input_devices.len();
    let mut i: usize = 0;
    while i < len
        invariant
            len == input_devices@.len(),
            i <= len,
            names == option_texts(input_devices@),
            option_text(default_name) == default_device_name(dd),
            source_views(sources@) == add_input_entries(
                start,
                names.take(i as int),
                default_device_name(dd),
            ),
        decreases len - i,
    {
        assert(names.take(i + 1).drop_last() =~= names.take(i as int));
        let n = match &input_devices[i] {
            Some(n) => n.clone(),
            None => String::from_str("unknown input"),
        };
        let is_default = match &default_name {
            Some(d) => *d == n,
            None => false,
        };
        let entry = AudioSourceDescriptor {
            id: n.clone(),
            name: n,
            kind: AudioSourceKind::Microphone,
            is_default,
        };
        push_unique_source(&mut sources, entry);
        i = i + 1;
    }
    assert(names.take(len as int) =~= names);
    sources
}

/// Adding the sources of `pactl` entries keeps the ids of a list distinct.
pub proof fn lemma_pactl_entries_keep_ids_distinct(
    list: Seq<SourceView>,
    entries: Seq<PactlEntryView>,
)
    requires
        ids_distinct(list),
    ensures
        ids_distinct(add_pactl_entries_spec(list, entries)),
    decreases entries.len(),
{
    if entries.len() > 0 {
        lemma_pactl_entries_keep_ids_distinct(list, entries.drop_last());
        let prev = add_pactl_entries_spec(list, entries.drop_last());
        if let Some(source) = pulse_source_spec(entries.last()) {
            lemma_push_unique_keeps_ids_distinct(prev, source);
        }
    }
}

/// Adding input devices keeps the ids of a list distinct.
pub proof fn lemma_input_entries_keep_ids_distinct(
    list: Seq<SourceView>,
    names: Seq<Option<Seq<char>>>,
    default_name: Option<Seq<char>>,
)
    requires
        ids_distinct(list),
    ensures
        ids_distinct(add_input_entries(list, names, default_name)),
    decreases names.len(),
{
    if names.len() > 0 {
        lemma_input_entries_keep_ids_distinct(list, names.drop_last(), default_name);
        lemma_push_unique_keeps_ids_distinct(
            add_input_entries(list, names.drop_last(), default_name),
            input_device_entry(names.last(), default_name),
        );
    }
}

/// The audio source list never lists an id twice.
pub proof fn lemma_audio_sources_ids_distinct(
    pactl_json: Option<Seq<u8>>,
    default_device: Option<Option<Seq<char>>>,
    input_devices: Seq<Option<Seq<char>>>,
)
    ensures
        ids_distinct(audio_sources_spec(pactl_json, default_device, input_devices)),
{
    let empty = Seq::<SourceView>::empty();
    let pulse = match pactl_json {
        Some(json) => add_pulse_entries(empty, pactl_entries(json)),
        None => empty,
    };
    if let Some(json) = pactl_json {
        lemma_pactl_entries_keep_ids_distinct(
            empty,
            pactl_entries(json).map_values(
                |leaves: Map<Seq<char>, Seq<char>>| pactl_entry_fields(leaves),
            ),
        );
    }
    let with_default = match default_device_entry(default_device) {
        Some(d) => push_unique_spec(pulse, d),
        None => pulse,
    };
    if let Some(d) = default_device_entry(default_device) {
        lemma_push_unique_keeps_ids_distinct(pulse, d);
    }
    lemma_input_entries_keep_ids_distinct(
        with_default,
        input_devices,
        default_device_name(default_device),
    );
}

/// Every source that `pactl` reports is listed under a `pulse:` id from
/// which its PulseAudio name is read back.
pub proof fn lemma_pulse_entry_id(leaves: Map<Seq<char>, Seq<char>>)
    ensures
        pulse_entry(leaves) matches Some(s) ==> strip_prefix_spec(s.id, pulse_prefix()) == Some(
            text_or_empty(json_text(leaves, "/name"@)),
        ),
{
    lemma_pulse_id_roundtrip(text_or_empty(json_text(leaves, "/name"@)));
}

} // verus!
