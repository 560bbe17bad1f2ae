//! The decisions of audio capture: which path a source kind takes, which
//! PulseAudio monitor source and which input device are used, which stream
//! configuration is chosen, how recorded chunks are kept, and how sent and
//! silent chunks are counted.

use vstd::prelude::*;
use crate::source::{
    pulse_prefix, pulse_source_name, source_views, AudioCaptureConfig, AudioSourceDescriptor,
    AudioSourceKind, SourceView,
};
use crate::text::{contains, contains_text, str_eq, strip_prefix_spec, to_lowercase, unicode_lowercase};

verus! {

// ---------------------------------------------------------------------------
// Capture paths
// ---------------------------------------------------------------------------

/// How the audio of a source is captured.
#[derive(Debug, Clone, Copy, PartialEq, Eq, Structural)]
pub enum CaptureRoute {
    /// Per-application capture, which no backend offers.
    Unsupported,
    /// Read from a PulseAudio/PipeWire source with `parec`.
    PulseSource,
    /// Read from an input device.
    InputDevice,
}

/// The capture path of a source: application audio cannot be captured;
/// desktop and output audio, and any source given by a `pulse:` id (as
/// `audio-sources` lists PulseAudio microphones), are read from
/// PulseAudio; other microphones from an input device.
pub open spec fn capture_route_spec(kind: AudioSourceKind, source_id: Seq<char>) -> CaptureRoute {
    match kind {
        AudioSourceKind::Application => CaptureRoute::Unsupported,
        AudioSourceKind::DesktopOutput | AudioSourceKind::OutputDevice => CaptureRoute::PulseSource,
        AudioSourceKind::Microphone => if pulse_prefix().is_prefix_of(source_id) {
            CaptureRoute::PulseSource
        } else {
            CaptureRoute::InputDevice
        },
    }
}

/// The capture path of the configured source (see `capture_route_spec`).
pub fn capture_route(config: &AudioCaptureConfig) -> (r: CaptureRoute)
    ensures
        r == capture_route_spec(config.source_kind, config.source_id@),
{
    match config.source_kind {
        AudioSourceKind::Application => CaptureRoute::Unsupported,
        AudioSourceKind::DesktopOutput | AudioSourceKind::OutputDevice => CaptureRoute::PulseSource,
        AudioSourceKind::Microphone => if pulse_source_name(config.source_id.as_str()).is_some() {
            CaptureRoute::PulseSource
        } else {
            CaptureRoute::InputDevice
        },
    }
}

/// Every source id that `audio-sources` lists under `pulse:` is captured
/// through PulseAudio, whatever kind it is given with (but application
/// audio), and the PulseAudio source read is the one the id names.
pub proof fn lemma_pulse_ids_are_captured_from_pulse(
    kind: AudioSourceKind,
    name: Seq<char>,
    listed: Seq<SourceView>,
)
    requires
        kind != AudioSourceKind::Application,
    ensures
        capture_route_spec(kind, pulse_prefix() + name) == CaptureRoute::PulseSource,
        pulse_source_choice(pulse_prefix() + name, listed) == Some(name),
{
    let id = pulse_prefix() + name;
    assert(pulse_prefix() =~= id.subrange(0, pulse_prefix().len() as int));
    lemma_pulse_id_selects_its_source(name, listed);
}

// ---------------------------------------------------------------------------
// First match in a sequence
// ---------------------------------------------------------------------------

/// `i` is the first position in `s` where `p` holds.
pub open spec fn is_first_match<A>(s: Seq<A>, p: spec_fn(A) -> bool, i: int) -> bool {
    &&& 0 <= i < s.len()
    &&& p(s[i])
    &&& forall|j: int| 0 <= j < i ==> !p(s[j])
}

/// The first position in `s` where `p` holds, if any.
pub open spec fn first_match<A>(s: Seq<A>, p: spec_fn(A) -> bool) -> Option<int> {
    if exists|i: int| is_first_match(s, p, i) {
        Some(choose|i: int| is_first_match(s, p, i))
    } else {
        None
    }
}

/// There is at most one first position.
pub proof fn lemma_first_match_is<A>(s: Seq<A>, p: spec_fn(A) -> bool, i: int)
    requires
        is_first_match(s, p, i),
    ensures
        first_match(s, p) == Some(i),
{
    let j = choose|j: int| is_first_match(s, p, j);
    assert(is_first_match(s, p, j));
    if j < i {
        assert(!p(s[j]));
    }
    if i < j {
        assert(!p(s[i]));
    }
}

/// A first position, when there is one, is a position where `p` holds
/// and before which it holds nowhere.
pub proof fn lemma_first_match_some<A>(s: Seq<A>, p: spec_fn(A) -> bool)
    requires
        first_match(s, p) is Some,
    ensures
        is_first_match(s, p, first_match(s, p)->0),
{
}

/// Where `p` holds nowhere, there is no first position.
pub proof fn lemma_first_match_none<A>(s: Seq<A>, p: spec_fn(A) -> bool)
    requires
        forall|j: int| 0 <= j < s.len() ==> !p(s[j]),
    ensures
        first_match(s, p) is None,
{
}

// ---------------------------------------------------------------------------
// The PulseAudio monitor source
// ---------------------------------------------------------------------------

/// The texts of a list of strings.
pub open spec fn name_texts(names: Seq<String>) -> Seq<Seq<char>> {
    names.map_values(|s: String| s@)
}

/// Each listed source beside the lowercase form of its name.
pub open spec fn with_lowered(listed: Seq<SourceView>, lowered: Seq<Seq<char>>) -> Seq<
    (SourceView, Seq<char>),
> {
    Seq::new(listed.len(), |i: int| (listed[i], lowered[i]))
}

/// The lowercase forms of the names of the listed sources.
pub open spec fn lowered_source_names(listed: Seq<SourceView>) -> Seq<Seq<char>> {
    listed.map_values(|s: SourceView| unicode_lowercase(s.name))
}

/// A desktop-output source.
pub open spec fn is_desktop_source() -> spec_fn(SourceView) -> bool {
    |s: SourceView| s.kind == AudioSourceKind::DesktopOutput
}

/// A desktop-output source whose lowercase name contains `lowered_id`.
pub open spec fn is_named_desktop_source(lowered_id: Seq<char>) -> spec_fn(
    (SourceView, Seq<char>),
) -> bool {
    |p: (SourceView, Seq<char>)|
        p.0.kind == AudioSourceKind::DesktopOutput && contains_text(p.1, lowered_id)
}

/// The PulseAudio name of the source at `at`, when it is a `pulse:` source.
pub open spec fn pulse_name_at(list: Seq<SourceView>, at: Option<int>) -> Option<Seq<char>> {
    match at {
        Some(i) => strip_prefix_spec(list[i].id, pulse_prefix()),
        None => None,
    }
}

/// The PulseAudio source that desktop capture reads, given the lowercase
/// forms of the listed names and of the source id: the one that a `pulse:`
/// source id names; else the first desktop-output source whose lowercase
/// name contains the lowercase id (unless the id is `default`); else the
/// first desktop-output source. None when the chosen source is not a
/// `pulse:` source or there is none.
pub open spec fn pulse_source_choice_lowered(
    source_id: Seq<char>,
    listed: Seq<SourceView>,
    lowered_names: Seq<Seq<char>>,
    lowered_id: Seq<char>,
) -> Option<Seq<char>> {
    let named = first_match(with_lowered(listed, lowered_names), is_named_desktop_source(lowered_id));
    match strip_prefix_spec(source_id, pulse_prefix()) {
        Some(name) => Some(name),
        None => if source_id != "default"@ && named is Some {
            pulse_name_at(listed, named)
        } else {
            pulse_name_at(listed, first_match(listed, is_desktop_source()))
        },
    }
}

/// The PulseAudio source that desktop capture reads, names compared
/// ignoring case by their Unicode lowercase forms.
pub open spec fn pulse_source_choice(source_id: Seq<char>, listed: Seq<SourceView>) -> Option<
    Seq<char>,
> {
    pulse_source_choice_lowered(
        source_id,
        listed,
        lowered_source_names(listed),
        unicode_lowercase(source_id),
    )
}

/// The name of the source at `i`, as a PulseAudio source name.
fn pulse_name_of(sources: &Vec<AudioSourceDescriptor>, i: usize) -> (r: Option<String>)
    requires
        i < sources@.len(),
    ensures
        match r {
            Some(n) => pulse_name_at(source_views(sources@), Some(i as int)) == Some(n@),
            None => pulse_name_at(source_views(sources@), Some(i as int)) is None,
        },
{
    match pulse_source_name(sources[i].id.as_str()) {
        Some(n) => Some(String::from_str(n)),
        None => None,
    }
}

/// Chooses the PulseAudio source for desktop capture, given the lowercase
/// forms of the listed names and of the source id (see
/// `pulse_source_choice_lowered`).
pub fn select_pulse_source_name_lowered(
    config: &AudioCaptureConfig,
    listed: &Vec<AudioSourceDescriptor>,
    lowered_names: &Vec<String>,
    lowered_id: &str,
) -> (r: Option<String>)
    requires
        lowered_names@.len() == listed@.len(),
    ensures
        match r {
            Some(n) => pulse_source_choice_lowered(
                config.source_id@,
                source_views(listed@),
                name_texts(lowered_names@),
                lowered_id@,
            ) == Some(n@),
            None => pulse_source_choice_lowered(
                config.source_id@,
                source_views(listed@),
                name_texts(lowered_names@),
                lowered_id@,
            ) is None,
        },
{
    if let Some(name) = pulse_source_name(config.source_id.as_str()) {
        return Some(String::from_str(name));
    }
    let ghost views = source_views(listed@);
    let ghost pairs = with_lowered(views, name_texts(lowered_names@));
    let ghost p = is_named_desktop_source(lowered_id@);
    let len = listed.len();
    if !str_eq(config.source_id.as_str(), "default") {
        let mut i: usize = 0;
        while i < len
            invariant
                len == listed@.len(),
                len == lowered_names@.len(),
                views == source_views(listed@),
                pairs == with_lowered(views, name_texts(lowered_names@)),
                p == is_named_desktop_source(lowered_id@),
                i <= len,
                strip_prefix_spec(config.source_id@, pulse_prefix()) is None,
                config.source_id@ != "default"@,
                forall|j: int| 0 <= j < i ==> !p(pairs[j]),
            decreases len - i,
        {
            if listed[i].kind == AudioSourceKind::DesktopOutput && contains(
                lowered_names[i].as_str(),
                lowered_id,
            ) {
                assert(p(pairs[i as int]));
                proof {
                    lemma_first_match_is(pairs, p, i as int);
                }
                return pulse_name_of(listed, i);
            }
            assert(!p(pairs[i as int]));
            i = i + 1;
        }
        proof {
            lemma_first_match_none(pairs, p);
        }
    }
    let ghost q = is_desktop_source();
    let mut i: usize = 0;
    while i < len
        invariant
            len == listed@.len(),
            views == source_views(listed@),
            i <= len,
            q == is_desktop_source(),
            forall|j: int| 0 <= j < i ==> !q(views[j]),
            strip_prefix_spec(config.source_id@, pulse_prefix()) is None,
            config.source_id@ == "default"@ || first_match(pairs, p) is None,
            pairs == with_lowered(views, name_texts(lowered_names@)),
            p == is_named_desktop_source(lowered_id@),
        decreases len - i,
    {
        if listed[i].kind == AudioSourceKind::DesktopOutput {
            assert(q(views[i as int]));
            proof {
                lemma_first_match_is(views, q, i as int);
            }
            return pulse_name_of(listed, i);
        }
        i = i + 1;
    }
    proof {
        lemma_first_match_none(views, q);
    }
    None
}

/// Chooses the PulseAudio source for desktop capture (see
/// `pulse_source_choice`). `listed` is the audio source list; it is only
/// read when the source id is not a `pulse:` id.
pub fn select_pulse_source_name(config: &AudioCaptureConfig, listed: &Vec<AudioSourceDescriptor>) -> (r:
    Option<String>)
    ensures
        match r {
            Some(n) => pulse_source_choice(config.source_id@, source_views(listed@)) == Some(n@),
            None => pulse_source_choice(config.source_id@, source_views(listed@)) is None,
        },
{
    let ghost views = source_views(listed@);
    let len = listed.len();
    let mut lowered: Vec<String> = Vec::new();
    let mut i: usize = 0;
    while i < len
        invariant
            len == listed@.len(),
            views == source_views(listed@),
            i <= len,
            lowered@.len() == i,
            forall|j: int| 0 <= j < i ==> lowered@[j]@ == unicode_lowercase(views[j].name),
        decreases len - i,
    {
        lowered.push(to_lowercase(listed[i].name.as_str()));
        i = i + 1;
    }
    assert(name_texts(lowered@) =~= lowered_source_names(views));
    let lowered_id = to_lowercase(config.source_id.as_str());
    select_pulse_source_name_lowered(config, listed, &lowered, lowered_id.as_str())
}

/// A `pulse:` source id picks exactly the PulseAudio source it names,
/// whatever sources are listed.
pub proof fn lemma_pulse_id_selects_its_source(name: Seq<char>, listed: Seq<SourceView>)
    ensures
        pulse_source_choice(pulse_prefix() + name, listed) == Some(name),
{
    crate::source::lemma_pulse_id_roundtrip(name);
}

/// Unless the source id is a `pulse:` id, desktop capture only ever reads
/// a listed desktop-output source: a chosen name `n` is that of a listed
/// desktop-output source with id `pulse:n`, whatever the names of the
/// sources of other kinds.
pub proof fn lemma_pulse_choice_is_listed_desktop_source(
    source_id: Seq<char>,
    listed: Seq<SourceView>,
    lowered_names: Seq<Seq<char>>,
    lowered_id: Seq<char>,
)
    requires
        strip_prefix_spec(source_id, pulse_prefix()) is None,
    ensures
        pulse_source_choice_lowered(source_id, listed, lowered_names, lowered_id) matches Some(n)
            ==> exists|i: int|
            0 <= i < listed.len() && listed[i].kind == AudioSourceKind::DesktopOutput
                && listed[i].id == pulse_prefix() + n,
{
    let pairs = with_lowered(listed, lowered_names);
    let p = is_named_desktop_source(lowered_id);
    let q = is_desktop_source();
    if let Some(n) = pulse_source_choice_lowered(source_id, listed, lowered_names, lowered_id) {
        if source_id != "default"@ && first_match(pairs, p) is Some {
            lemma_first_match_some(pairs, p);
            let k = first_match(pairs, p)->0;
            assert(pairs[k].0 == listed[k]);
            crate::text::lemma_strip_prefix_inverse(listed[k].id, pulse_prefix());
            assert(listed[k].kind == AudioSourceKind::DesktopOutput);
        } else {
            lemma_first_match_some(listed, q);
            let k = first_match(listed, q)->0;
            crate::text::lemma_strip_prefix_inverse(listed[k].id, pulse_prefix());
            assert(listed[k].kind == AudioSourceKind::DesktopOutput);
        }
    }
}

/// When the source id is neither a `pulse:` id nor `default` and some
/// listed desktop-output source's lowercase name contains the lowercase
/// id, the source read is the first such source (when it is a `pulse:`
/// source): its id is `pulse:` followed by the chosen name.
pub proof fn lemma_named_monitor_is_chosen(
    source_id: Seq<char>,
    listed: Seq<SourceView>,
    lowered_names: Seq<Seq<char>>,
    lowered_id: Seq<char>,
    i: int,
)
    requires
        strip_prefix_spec(source_id, pulse_prefix()) is None,
        source_id != "default"@,
        0 <= i < listed.len(),
        listed[i].kind == AudioSourceKind::DesktopOutput,
        contains_text(lowered_names[i], lowered_id),
    ensures
        exists|k: int|
            0 <= k <= i && listed[k].kind == AudioSourceKind::DesktopOutput && contains_text(
                lowered_names[k],
                lowered_id,
            ) && (forall|j: int|
                0 <= j < k ==> !(listed[j].kind == AudioSourceKind::DesktopOutput
                    && contains_text(lowered_names[j], lowered_id)))
                && pulse_source_choice_lowered(source_id, listed, lowered_names, lowered_id)
                == strip_prefix_spec(listed[k].id, pulse_prefix()),
{
    let pairs = with_lowered(listed, lowered_names);
    let p = is_named_desktop_source(lowered_id);
    assert(p(pairs[i]));
    lemma_least_match_exists(pairs, p, i);
    lemma_first_match_some(pairs, p);
    let k = first_match(pairs, p)->0;
    assert(p(pairs[k]));
    if k > i {
        assert(!p(pairs[i]));
    }
    assert forall|j: int| 0 <= j < k implies !(listed[j].kind == AudioSourceKind::DesktopOutput
        && contains_text(lowered_names[j], lowered_id)) by {
        assert(!p(pairs[j]));
    }
}

/// Where `p` holds at `i`, it has a first position.
pub proof fn lemma_least_match_exists<A>(s: Seq<A>, p: spec_fn(A) -> bool, i: int)
    requires
        0 <= i < s.len(),
        p(s[i]),
    ensures
        first_match(s, p) is Some,
    decreases i,
{
    if forall|j: int| 0 <= j < i ==> !p(s[j]) {
        assert(is_first_match(s, p, i));
    } else {
        let j = choose|j: int| 0 <= j < i && p(s[j]);
        lemma_least_match_exists(s, p, j);
    }
}

/// The same holds of the choice that compares names by their Unicode
/// lowercase forms.
pub proof fn lemma_pulse_source_choice_is_listed_desktop_source(
    source_id: Seq<char>,
    listed: Seq<SourceView>,
)
    requires
        strip_prefix_spec(source_id, pulse_prefix()) is None,
    ensures
        pulse_source_choice(source_id, listed) matches Some(n) ==> exists|i: int|
            0 <= i < listed.len() && listed[i].kind == AudioSourceKind::DesktopOutput
                && listed[i].id == pulse_prefix() + n,
{
    lemma_pulse_choice_is_listed_desktop_source(
        source_id,
        listed,
        lowered_source_names(listed),
        unicode_lowercase(source_id),
    );
}

// ---------------------------------------------------------------------------
// The input device
// ---------------------------------------------------------------------------

/// Which input device capture opens.
#[derive(Debug, Clone, Copy, PartialEq, Eq, Structural)]
pub enum DeviceChoice {
    /// The host's default input device.
    DefaultDevice,
    /// The enumerated device at this position.
    Listed(usize),
    /// No device matches the source id.
    NotFound,
}

/// The default microphone is opened without enumerating devices.
pub open spec fn wants_default_input_spec(source_id: Seq<char>, kind: AudioSourceKind) -> bool {
    source_id == "default"@ && kind == AudioSourceKind::Microphone
}

/// Each device name beside its lowercase form.
pub open spec fn pair_names(names: Seq<Seq<char>>, lowered: Seq<Seq<char>>) -> Seq<
    (Seq<char>, Seq<char>),
> {
    Seq::new(names.len(), |i: int| (names[i], lowered[i]))
}

/// A device name that a source id selects: the id itself, or a name whose
/// lowercase form contains the lowercase id. The id `default` selects no
/// named device.
pub open spec fn device_name_matches(source_id: Seq<char>, lowered_id: Seq<char>) -> spec_fn(
    (Seq<char>, Seq<char>),
) -> bool {
    |p: (Seq<char>, Seq<char>)|
        source_id != "default"@ && (p.0 == source_id || contains_text(p.1, lowered_id))
}

/// The device that capture opens, given the names of the enumerated devices
/// and the lowercase forms of those names and of the source id.
pub open spec fn device_choice_lowered(
    source_id: Seq<char>,
    kind: AudioSourceKind,
    names: Seq<Seq<char>>,
    lowered_names: Seq<Seq<char>>,
    lowered_id: Seq<char>,
) -> DeviceChoice {
    if wants_default_input_spec(source_id, kind) {
        DeviceChoice::DefaultDevice
    } else {
        match first_match(
            pair_names(names, lowered_names),
            device_name_matches(source_id, lowered_id),
        ) {
            Some(i) => DeviceChoice::Listed(i as usize),
            None => if source_id == "default"@ {
                DeviceChoice::DefaultDevice
            } else {
                DeviceChoice::NotFound
            },
        }
    }
}

/// The device that capture opens, names compared ignoring case by their
/// Unicode lowercase forms.
pub open spec fn device_choice_spec(
    source_id: Seq<char>,
    kind: AudioSourceKind,
    names: Seq<Seq<char>>,
) -> DeviceChoice {
    device_choice_lowered(
        source_id,
        kind,
        names,
        names.map_values(|n: Seq<char>| unicode_lowercase(n)),
        unicode_lowercase(source_id),
    )
}

/// The default microphone is opened directly, without enumerating devices.
pub fn wants_default_input(config: &AudioCaptureConfig) -> (r: bool)
    ensures
        r == wants_default_input_spec(config.source_id@, config.source_kind),
{
    str_eq(config.source_id.as_str(), "default") && config.source_kind
        == AudioSourceKind::Microphone
}

/// Chooses the input device, given the lowercase forms of the device names
/// and of the source id (see `device_choice_lowered`).
pub fn select_input_device_lowered(
    config: &AudioCaptureConfig,
    device_names: &Vec<String>,
    lowered_names: &Vec<String>,
    lowered_id: &str,
) -> (r: DeviceChoice)
    requires
        lowered_names@.len() == device_names@.len(),
    ensures
        r == device_choice_lowered(
            config.source_id@,
            config.source_kind,
            name_texts(device_names@),
            name_texts(lowered_names@),
            lowered_id@,
        ),
{
    if wants_default_input(config) {
        return DeviceChoice::DefaultDevice;
    }
    let is_default_id = str_eq(config.source_id.as_str(), "default");
    let ghost pairs = pair_names(name_texts(device_names@), name_texts(lowered_names@));
    let ghost p = device_name_matches(config.source_id@, lowered_id@);
    let len = device_names.len();
    let mut i: usize = 0;
    while i < len
        invariant
            len == device_names@.len(),
            len == lowered_names@.len(),
            pairs == pair_names(name_texts(device_names@), name_texts(lowered_names@)),
            p == device_name_matches(config.source_id@, lowered_id@),
            is_default_id == (config.source_id@ == "default"@),
            i <= len,
            forall|j: int| 0 <= j < i ==> !p(pairs[j]),
        decreases len - i,
    {
        if !is_default_id && (device_names[i] == config.source_id || contains(
            lowered_names[i].as_str(),
            lowered_id,
        )) {
            assert(p(pairs[i as int]));
            proof {
                lemma_first_match_is(pairs, p, i as int);
            }
            return DeviceChoice::Listed(i);
        }
        assert(!p(pairs[i as int]));
        i = i + 1;
    }
    proof {
        lemma_first_match_none(pairs, p);
    }
    if is_default_id {
        DeviceChoice::DefaultDevice
    } else {
        DeviceChoice::NotFound
    }
}

/// Chooses the input device: the default device for the `default` id, else
/// the first enumerated device whose name equals the source id or contains
/// it ignoring case.
pub fn select_input_device(config: &AudioCaptureConfig, device_names: &Vec<String>) -> (r:
    DeviceChoice)
    ensures
        r == device_choice_spec(config.source_id@, config.source_kind, name_texts(device_names@)),
{
    let ghost names = name_texts(device_names@);
    let len = device_names.len();
    let mut lowered: Vec<String> = Vec::new();
    let mut i: usize = 0;
    while i < len
        invariant
            len == device_names@.len(),
            names == name_texts(device_names@),
            i <= len,
            lowered@.len() == i,
            forall|j: int| 0 <= j < i ==> lowered@[j]@ == unicode_lowercase(names[j]),
        decreases len - i,
    {
        lowered.push(to_lowercase(device_names[i].as_str()));
        i = i + 1;
    }
    assert(name_texts(lowered@) =~= names.map_values(|n: Seq<char>| unicode_lowercase(n)));
    let lowered_id = to_lowercase(config.source_id.as_str());
    select_input_device_lowered(config, device_names, &lowered, lowered_id.as_str())
}

/// A device is chosen only for a source id other than `default`, and only
/// when its name equals the id or its lowercase form contains the
/// lowercase id; every earlier device matches in neither way.
pub proof fn lemma_listed_device_matches(
    source_id: Seq<char>,
    kind: AudioSourceKind,
    names: Seq<Seq<char>>,
    lowered_names: Seq<Seq<char>>,
    lowered_id: Seq<char>,
)
    requires
        names.len() <= usize::MAX,
        lowered_names.len() == names.len(),
    ensures
        device_choice_lowered(source_id, kind, names, lowered_names, lowered_id) matches DeviceChoice::Listed(
            i,
        ) ==> {
            &&& 0 <= i < names.len()
            &&& source_id != "default"@
            &&& names[i as int] == source_id || contains_text(lowered_names[i as int], lowered_id)
            &&& forall|j: int|
                0 <= j < i ==> !(names[j] == source_id || contains_text(lowered_names[j], lowered_id))
        },
{
    let pairs = pair_names(names, lowered_names);
    let p = device_name_matches(source_id, lowered_id);
    if !wants_default_input_spec(source_id, kind) && first_match(pairs, p) is Some {
        lemma_first_match_some(pairs, p);
        let k = first_match(pairs, p)->0;
        assert(p(pairs[k]));
        assert(pairs[k].0 == names[k] && pairs[k].1 == lowered_names[k]);
        assert((k as usize) as int == k);
        assert(device_choice_lowered(source_id, kind, names, lowered_names, lowered_id)
            == DeviceChoice::Listed(k as usize));
        assert(names[k] == source_id || contains_text(lowered_names[k], lowered_id));
        assert forall|j: int| 0 <= j < k implies !(names[j] == source_id || contains_text(
            lowered_names[j],
            lowered_id,
        )) by {
            assert(!p(pairs[j]));
            assert(pairs[j].0 == names[j] && pairs[j].1 == lowered_names[j]);
        }
    }
}

/// When a named source id (not `default`, or not for a microphone) matches
/// some device, a device is chosen.
pub proof fn lemma_matching_device_is_chosen(
    source_id: Seq<char>,
    kind: AudioSourceKind,
    names: Seq<Seq<char>>,
    lowered_names: Seq<Seq<char>>,
    lowered_id: Seq<char>,
    i: int,
)
    requires
        source_id != "default"@,
        0 <= i < names.len(),
        names[i] == source_id || contains_text(lowered_names[i], lowered_id),
    ensures
        device_choice_lowered(source_id, kind, names, lowered_names, lowered_id) is Listed,
{
    let pairs = pair_names(names, lowered_names);
    let p = device_name_matches(source_id, lowered_id);
    assert(pairs[i].0 == names[i] && pairs[i].1 == lowered_names[i]);
    assert(p(pairs[i]));
    lemma_least_match_exists(pairs, p, i);
}

/// The same holds of the choice that compares names by their Unicode
/// lowercase forms: a chosen device's name equals the id or, lowercased,
/// contains the lowercased id.
pub proof fn lemma_chosen_device_matches(
    source_id: Seq<char>,
    kind: AudioSourceKind,
    names: Seq<Seq<char>>,
)
    requires
        names.len() <= usize::MAX,
    ensures
        device_choice_spec(source_id, kind, names) matches DeviceChoice::Listed(i) ==> {
            &&& 0 <= i < names.len()
            &&& source_id != "default"@
            &&& names[i as int] == source_id || contains_text(
                unicode_lowercase(names[i as int]),
                unicode_lowercase(source_id),
            )
        },
{
    let lowered = names.map_values(|n: Seq<char>| unicode_lowercase(n));
    lemma_listed_device_matches(source_id, kind, names, lowered, unicode_lowercase(source_id));
}

// ---------------------------------------------------------------------------
// The stream configuration
// ---------------------------------------------------------------------------

/// The sample rate that speech is sent at.
pub const TARGET_SAMPLE_RATE: u32 = 16000;

/// The sample format of an input configuration.
#[derive(Debug, Clone, Copy, PartialEq, Eq, Structural)]
pub enum SampleFormatKind {
    I16,
    F32,
    U16,
    /// Any other format.
    Other,
}

impl SampleFormatKind {
    /// Input streams are built for 16-bit integer, unsigned 16-bit and
    /// 32-bit float samples.
    pub fn is_supported_input(&self) -> (r: bool)
        ensures
            r == (*self != SampleFormatKind::Other),
    {
        !matches!(self, SampleFormatKind::Other)
    }
}

/// One range of input configurations that a device supports.
#[derive(Debug, Clone, Copy)]
pub struct SupportedRange {
    pub min_sample_rate: u32,
    pub max_sample_rate: u32,
    pub channels: u16,
    pub format: SampleFormatKind,
}

/// The configuration chosen: a range and the sample rate used within it.
#[derive(Debug, Clone, Copy, PartialEq, Eq, Structural)]
pub struct ConfigChoice {
    pub index: usize,
    pub sample_rate: u32,
}

/// The rate used within a range: the target rate when the range holds it,
/// else the nearer bound.
pub open spec fn range_rate(r: SupportedRange) -> u32 {
    if r.min_sample_rate <= TARGET_SAMPLE_RATE && TARGET_SAMPLE_RATE <= r.max_sample_rate {
        TARGET_SAMPLE_RATE
    } else if TARGET_SAMPLE_RATE < r.min_sample_rate {
        r.min_sample_rate
    } else {
        r.max_sample_rate
    }
}

/// The penalty of a sample format.
pub open spec fn format_penalty(f: SampleFormatKind) -> int {
    match f {
        SampleFormatKind::I16 => 0,
        SampleFormatKind::F32 => 100,
        SampleFormatKind::U16 => 200,
        SampleFormatKind::Other => 500,
    }
}

/// The distance of the rate from the target rate.
pub open spec fn rate_penalty(r: SupportedRange) -> int {
    let rate = range_rate(r) as int;
    if rate >= TARGET_SAMPLE_RATE {
        rate - TARGET_SAMPLE_RATE
    } else {
        TARGET_SAMPLE_RATE - rate
    }
}

/// The penalty of channels beyond the first: a thousand each.
pub open spec fn channel_penalty(r: SupportedRange) -> int {
    if r.channels >= 1 {
        (r.channels - 1) * 1000
    } else {
        0
    }
}

/// The score of a range: lower is better.
pub open spec fn range_score(r: SupportedRange) -> int {
    rate_penalty(r) + channel_penalty(r) + format_penalty(r.format)
}

/// Scores are computed in 32 bits; every range's score must fit.
pub open spec fn scores_fit(ranges: Seq<SupportedRange>) -> bool {
    forall|i: int| 0 <= i < ranges.len() ==> range_score(#[trigger] ranges[i]) <= u32::MAX
}

fn score_of(r: &SupportedRange) -> (s: u32)
    requires
        range_score(*r) <= u32::MAX,
    ensures
        s == range_score(*r),
{
    let rate = rate_for(r);
    let channel_penalty: u32 = (r.channels.saturating_sub(1) as u32) * 1000;
    let rate_penalty: u32 = if rate >= TARGET_SAMPLE_RATE {
        rate - TARGET_SAMPLE_RATE
    } else {
        TARGET_SAMPLE_RATE - rate
    };
    let format_penalty: u32 = match r.format {
        SampleFormatKind::I16 => 0,
        SampleFormatKind::F32 => 100,
        SampleFormatKind::U16 => 200,
        SampleFormatKind::Other => 500,
    };
    rate_penalty + channel_penalty + format_penalty
}

fn rate_for(r: &SupportedRange) -> (rate: u32)
    ensures
        rate == range_rate(*r),
{
    if r.min_sample_rate <= TARGET_SAMPLE_RATE && TARGET_SAMPLE_RATE <= r.max_sample_rate {
        TARGET_SAMPLE_RATE
    } else if TARGET_SAMPLE_RATE < r.min_sample_rate {
        r.min_sample_rate
    } else {
        r.max_sample_rate
    }
}

/// Whether every range's score fits in 32 bits, so that
/// `select_supported_config` may score them.
pub fn ranges_scores_fit(ranges: &Vec<SupportedRange>) -> (r: bool)
    ensures
        r == scores_fit(ranges@),
{
    let len = ranges.len();
    let mut i: usize = 0;
    while i < len
        invariant
            len == ranges@.len(),
            i <= len,
            forall|j: int| 0 <= j < i ==> range_score(#[trigger] ranges@[j]) <= u32::MAX,
        decreases len - i,
    {
        let r = &ranges[i];
        let rate = rate_for(r) as u64;
        let target = TARGET_SAMPLE_RATE as u64;
        let rate_penalty: u64 = if rate >= target {
            rate - target
        } else {
            target - rate
        };
        let channel_penalty: u64 = if r.channels >= 1 {
            (r.channels as u64 - 1) * 1000
        } else {
            0
        };
        let format_penalty: u64 = match r.format {
            SampleFormatKind::I16 => 0,
            SampleFormatKind::F32 => 100,
            SampleFormatKind::U16 => 200,
            SampleFormatKind::Other => 500,
        };
        if rate_penalty + channel_penalty + format_penalty > u32::MAX as u64 {
            assert(range_score(ranges@[i as int]) > u32::MAX);
            return false;
        }
        i = i + 1;
    }
    true
}

/// The chosen range is the first one with the lowest score below
/// `u32::MAX`, at its `range_rate`; none when there is no such range.
pub open spec fn is_config_choice(ranges: Seq<SupportedRange>, c: ConfigChoice) -> bool {
    &&& 0 <= c.index < ranges.len()
    &&& range_score(ranges[c.index as int]) < u32::MAX
    &&& c.sample_rate == range_rate(ranges[c.index as int])
    &&& forall|j: int|
        0 <= j < ranges.len() ==> range_score(ranges[c.index as int]) <= range_score(
            #[trigger] ranges[j],
        )
    &&& forall|j: int|
        0 <= j < c.index ==> range_score(ranges[c.index as int]) < range_score(#[trigger] ranges[j])
}

/// Chooses the input configuration closest to 16 kHz mono 16-bit: the
/// first range with the lowest score, at the rate nearest the target that
/// it supports.
pub fn select_supported_config(ranges: &Vec<SupportedRange>) -> (r: Option<ConfigChoice>)
    requires
        scores_fit(ranges@),
    ensures
        match r {
            Some(c) => is_config_choice(ranges@, c),
            None => forall|j: int| 0 <= j < ranges@.len() ==> range_score(#[trigger] ranges@[j]) == u32::MAX,
        },
{
    let mut best: Option<ConfigChoice> = None;
    let mut best_score: u32 = u32::MAX;
    let len = ranges.len();
    let mut i: usize = 0;
    while i < len
        invariant
            len == ranges@.len(),
            i <= len,
            scores_fit(ranges@),
            forall|j: int| 0 <= j < i ==> best_score <= range_score(#[trigger] ranges@[j]),
            match best {
                Some(c) => {
                    &&& c.index < i
                    &&& best_score == range_score(ranges@[c.index as int])
                    &&& best_score < u32::MAX
                    &&& c.sample_rate == range_rate(ranges@[c.index as int])
                    &&& forall|j: int| 0 <= j < c.index ==> best_score < range_score(#[trigger] ranges@[j])
                },
                None => best_score == u32::MAX,
            },
        decreases len - i,
    {
        assert(range_score(ranges@[i as int]) <= u32::MAX);
        let score = score_of(&ranges[i]);
        if score < best_score {
            best_score = score;
            best = Some(ConfigChoice { index: i, sample_rate: rate_for(&ranges[i]) });
        }
        i = i + 1;
    }
    best
}

/// Two ranges that differ only in their sample format.
pub open spec fn differ_only_in_format(a: SupportedRange, b: SupportedRange) -> bool {
    &&& a.min_sample_rate == b.min_sample_rate
    &&& a.max_sample_rate == b.max_sample_rate
    &&& a.channels == b.channels
}

/// Two ranges that differ only in their channel count.
pub open spec fn differ_only_in_channels(a: SupportedRange, b: SupportedRange) -> bool {
    &&& a.min_sample_rate == b.min_sample_rate
    &&& a.max_sample_rate == b.max_sample_rate
    &&& a.format == b.format
}

/// A mono 16-bit range scores its distance from 16 kHz: nothing when it
/// holds 16000 Hz, else the distance of its nearer bound.
pub proof fn lemma_mono_i16_score_is_rate_distance(r: SupportedRange)
    requires
        r.channels == 1,
        r.format == SampleFormatKind::I16,
    ensures
        range_score(r) == if r.min_sample_rate <= 16000 && 16000 <= r.max_sample_rate {
            0
        } else if 16000 < r.min_sample_rate {
            r.min_sample_rate - 16000
        } else {
            16000 - r.max_sample_rate
        },
{
}

/// Against a 16-bit integer range, the same range scores 100 more in
/// 32-bit float, 200 more in unsigned 16-bit and 500 more in any other
/// format.
pub proof fn lemma_format_penalties(a: SupportedRange, b: SupportedRange)
    requires
        differ_only_in_format(a, b),
        a.format == SampleFormatKind::I16,
    ensures
        b.format == SampleFormatKind::I16 ==> range_score(b) == range_score(a),
        b.format == SampleFormatKind::F32 ==> range_score(b) == range_score(a) + 100,
        b.format == SampleFormatKind::U16 ==> range_score(b) == range_score(a) + 200,
        b.format == SampleFormatKind::Other ==> range_score(b) == range_score(a) + 500,
{
}

/// Every channel beyond the first adds 1000 to a range's score; a range
/// without channels scores as a mono one.
pub proof fn lemma_channel_penalty(a: SupportedRange, b: SupportedRange)
    requires
        differ_only_in_channels(a, b),
    ensures
        a.channels >= 1 && b.channels == a.channels + 1 ==> range_score(b) == range_score(a)
            + 1000,
        a.channels == 0 && b.channels == 1 ==> range_score(b) == range_score(a),
{
}

/// The rate chosen lies within the chosen range, and is 16000 Hz whenever
/// that range holds it.
pub proof fn lemma_chosen_rate_in_range(ranges: Seq<SupportedRange>, c: ConfigChoice)
    requires
        is_config_choice(ranges, c),
        ranges[c.index as int].min_sample_rate <= ranges[c.index as int].max_sample_rate,
    ensures
        ranges[c.index as int].min_sample_rate <= c.sample_rate <= ranges[c.index as int].max_sample_rate,
        ranges[c.index as int].min_sample_rate <= 16000 <= ranges[c.index as int].max_sample_rate
            ==> c.sample_rate == 16000,
{
}

/// Of two ranges that differ only in format, a 16-bit integer one is
/// chosen over a 32-bit float, unsigned 16-bit or other one: the other is
/// never the choice.
pub proof fn lemma_choice_prefers_i16(ranges: Seq<SupportedRange>, c: ConfigChoice, i: int, j: int)
    requires
        is_config_choice(ranges, c),
        0 <= i < ranges.len(),
        0 <= j < ranges.len(),
        differ_only_in_format(ranges[i], ranges[j]),
        ranges[i].format == SampleFormatKind::I16,
        ranges[j].format != SampleFormatKind::I16,
    ensures
        c.index != j,
{
    lemma_format_penalties(ranges[i], ranges[j]);
    assert(range_score(ranges[c.index as int]) <= range_score(ranges[i]));
}

/// Of two ranges that differ only in channel count, one with fewer
/// channels (at least one) is chosen over one with more.
pub proof fn lemma_choice_prefers_fewer_channels(
    ranges: Seq<SupportedRange>,
    c: ConfigChoice,
    i: int,
    j: int,
)
    requires
        is_config_choice(ranges, c),
        0 <= i < ranges.len(),
        0 <= j < ranges.len(),
        differ_only_in_channels(ranges[i], ranges[j]),
        1 <= ranges[i].channels < ranges[j].channels,
    ensures
        c.index != j,
{
    assert(range_score(ranges[j]) >= range_score(ranges[i]) + 1000);
    assert(range_score(ranges[c.index as int]) <= range_score(ranges[i]));
}

// ---------------------------------------------------------------------------
// Recording
// ---------------------------------------------------------------------------

/// `recorded` after keeping the part of `chunk` that fits below `target`.
pub open spec fn stored_chunk_spec(recorded: Seq<i16>, chunk: Seq<i16>, target: int) -> Seq<i16> {
    if recorded.len() >= target {
        recorded
    } else {
        recorded + chunk.take(
            if chunk.len() <= target - recorded.len() {
                chunk.len() as int
            } else {
                target - recorded.len()
            },
        )
    }
}

/// Keeps the samples of a recorded chunk until the recording holds
/// `target_samples` samples; later samples are dropped.
pub fn store_recorded_chunk(recorded: &mut Vec<i16>, chunk: &Vec<i16>, target_samples: usize)
    ensures
        final(recorded)@ == stored_chunk_spec(old(recorded)@, chunk@, target_samples as int),
{
    if recorded.len() >= target_samples {
        return;
    }
    let remaining = target_samples - recorded.len();
    let take = if chunk.len() <= remaining {
        chunk.len()
    } else {
        remaining
    };
    let ghost start = recorded@;
    let mut i: usize = 0;
    while i < take
        invariant
            take <= chunk@.len(),
            i <= take,
            recorded@ == start + chunk@.take(i as int),
        decreases take - i,
    {
        recorded.push(chunk[i]);
        assert(chunk@.take(i + 1) =~= chunk@.take(i as int).push(chunk@[i as int]));
        i = i + 1;
    }
}

/// A recording never grows beyond its target through stored chunks.
pub proof fn lemma_stored_chunk_bounded(recorded: Seq<i16>, chunk: Seq<i16>, target: int)
    requires
        recorded.len() <= target,
    ensures
        stored_chunk_spec(recorded, chunk, target).len() <= target,
        stored_chunk_spec(recorded, chunk, target).len() == if recorded.len() + chunk.len()
            <= target {
            (recorded.len() + chunk.len()) as int
        } else {
            target
        },
{
}

// ---------------------------------------------------------------------------
// Level statistics
// ---------------------------------------------------------------------------

/// How many chunks are counted before a level report is due.
pub const REPORT_EVERY_CHUNKS: u32 = 250;

/// Counts of the captured chunks since the last level report.
#[derive(Debug, Clone, Copy, PartialEq, Eq, Structural)]
pub struct ChunkCounters {
    pub chunks_seen: u32,
    pub chunks_sent: u32,
    pub chunks_silent: u32,
}

/// A level report: the chunks sent and the chunks found silent.
#[derive(Debug, Clone, Copy, PartialEq, Eq, Structural)]
pub struct ChunkReport {
    pub sent_chunks: u32,
    pub silent_chunks: u32,
}

impl ChunkCounters {
    /// Every chunk seen was either sent or silent, and a report is made
    /// before the count reaches the report interval.
    pub open spec fn wf(&self) -> bool {
        &&& self.chunks_seen == self.chunks_sent + self.chunks_silent
        &&& self.chunks_seen < REPORT_EVERY_CHUNKS
    }

    /// No chunk counted.
    pub fn new() -> (r: ChunkCounters)
        ensures
            r.chunks_seen == 0,
            r.chunks_sent == 0,
            r.chunks_silent == 0,
    {
        ChunkCounters { chunks_seen: 0, chunks_sent: 0, chunks_silent: 0 }
    }

    /// Counts one chunk, sent or silent. When the count reaches the report
    /// interval, the counts are returned for a report and start again from
    /// zero.
    pub fn observe(&mut self, sent: bool) -> (report: Option<ChunkReport>)
        requires
            old(self).chunks_seen < u32::MAX,
            sent ==> old(self).chunks_sent < u32::MAX,
            !sent ==> old(self).chunks_silent < u32::MAX,
        ensures
            ({
                let seen = old(self).chunks_seen + 1;
                let sent_count = if sent {
                    old(self).chunks_sent + 1
                } else {
                    old(self).chunks_sent as int
                };
                let silent_count = if sent {
                    old(self).chunks_silent as int
                } else {
                    old(self).chunks_silent + 1
                };
                if seen >= REPORT_EVERY_CHUNKS {
                    &&& report == Some(
                        ChunkReport {
                            sent_chunks: sent_count as u32,
                            silent_chunks: silent_count as u32,
                        },
                    )
                    &&& *final(self) == ChunkCounters::new_spec()
                } else {
                    &&& report is None
                    &&& final(self).chunks_seen == seen
                    &&& final(self).chunks_sent == sent_count
                    &&& final(self).chunks_silent == silent_count
                }
            }),
    {
        self.chunks_seen = self.chunks_seen + 1;
        if sent {
            self.chunks_sent = self.chunks_sent + 1;
        } else {
            self.chunks_silent = self.chunks_silent + 1;
        }
        if self.chunks_seen >= REPORT_EVERY_CHUNKS {
            let report = ChunkReport {
                sent_chunks: self.chunks_sent,
                silent_chunks: self.chunks_silent,
            };
            *self = ChunkCounters::new();
            Some(report)
        } else {
            None
        }
    }

    /// The counters of `new`.
    pub open spec fn new_spec() -> ChunkCounters {
        ChunkCounters { chunks_seen: 0, chunks_sent: 0, chunks_silent: 0 }
    }
}

/// Counting keeps the counters well formed: from a well-formed state,
/// `observe` may always be called, and every report covers exactly the
/// report interval.
pub proof fn lemma_observe_keeps_wf(c: ChunkCounters, sent: bool)
    requires
        c.wf(),
    ensures
        c.chunks_seen < u32::MAX,
        c.chunks_sent < u32::MAX,
        c.chunks_silent < u32::MAX,
        ChunkCounters::new_spec().wf(),
        ({
            let seen = c.chunks_seen + 1;
            let sent_count = if sent { c.chunks_sent + 1 } else { c.chunks_sent as int };
            let silent_count = if sent { c.chunks_silent as int } else { c.chunks_silent + 1 };
            &&& seen >= REPORT_EVERY_CHUNKS ==> seen == REPORT_EVERY_CHUNKS && sent_count
                + silent_count == REPORT_EVERY_CHUNKS
            &&& seen < REPORT_EVERY_CHUNKS ==> (ChunkCounters {
                chunks_seen: seen as u32,
                chunks_sent: sent_count as u32,
                chunks_silent: silent_count as u32,
            }).wf()
        }),
{
}

} // verus!
