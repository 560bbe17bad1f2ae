use whisper_overlay::source::pulse_source_from_entry;
use whisper_overlay::source::{
    add_pulse_sources, list_audio_sources, pulse_source_name, push_unique_source,
    AudioSourceDescriptor, AudioSourceKind,
};

fn descriptor(id: &str, name: &str, kind: AudioSourceKind, is_default: bool) -> AudioSourceDescriptor {
    AudioSourceDescriptor {
        id: id.to_string(),
        name: name.to_string(),
        kind,
        is_default,
    }
}

fn summary(sources: &[AudioSourceDescriptor]) -> Vec<(String, String, AudioSourceKind, bool)> {
    sources
        .iter()
        .map(|s| (s.id.clone(), s.name.clone(), s.kind, s.is_default))
        .collect()
}

#[test]
fn kind_names_round_trip() {
    for kind in [
        AudioSourceKind::Microphone,
        AudioSourceKind::DesktopOutput,
        AudioSourceKind::OutputDevice,
        AudioSourceKind::Application,
    ] {
        assert_eq!(AudioSourceKind::parse(kind.as_str()).unwrap(), kind);
    }
    assert_eq!(AudioSourceKind::Microphone.as_str(), "microphone");
    assert_eq!(AudioSourceKind::DesktopOutput.as_str(), "desktop-output");
    assert_eq!(AudioSourceKind::OutputDevice.as_str(), "output-device");
    assert_eq!(AudioSourceKind::Application.as_str(), "application");
}

#[test]
fn unknown_kind_is_refused_with_message() {
    let err = AudioSourceKind::parse("speaker").unwrap_err();
    assert_eq!(err.value, "speaker");
    assert_eq!(
        err.message(),
        "Unsupported audio source kind 'speaker'. Expected microphone, desktop-output, output-device, or application"
    );
    assert!(AudioSourceKind::parse("Microphone").is_err());
    assert!(AudioSourceKind::parse("").is_err());
}

#[test]
fn push_unique_source_skips_known_ids() {
    let mut sources = Vec::new();
    push_unique_source(&mut sources, descriptor("a", "first", AudioSourceKind::Microphone, false));
    push_unique_source(&mut sources, descriptor("b", "second", AudioSourceKind::DesktopOutput, false));
    push_unique_source(&mut sources, descriptor("a", "again", AudioSourceKind::Application, true));
    assert_eq!(
        summary(&sources),
        vec![
            ("a".to_string(), "first".to_string(), AudioSourceKind::Microphone, false),
            ("b".to_string(), "second".to_string(), AudioSourceKind::DesktopOutput, false),
        ]
    );
}

#[test]
fn pulse_source_name_strips_prefix() {
    assert_eq!(pulse_source_name("pulse:easyeffects_sink.monitor"), Some("easyeffects_sink.monitor"));
    assert_eq!(pulse_source_name("pulse:"), Some(""));
    assert_eq!(pulse_source_name("HDA Intel PCH"), None);
    assert_eq!(pulse_source_name("pulse"), None);
    assert_eq!(pulse_source_name("Pulse:x"), None);
}

const PACTL_JSON: &str = r#"[
  {"name": "alsa_output.pci.analog-stereo.monitor", "description": "Monitor of Built-in Audio",
   "properties": {"device.class": "monitor", "media.class": "Audio/Source"}},
  {"name": "alsa_input.pci.analog-stereo", "description": "Built-in Audio Analog Stereo",
   "properties": {"media.class": "Audio/Source"}},
  {"name": "", "description": "nameless"},
  {"description": "no name at all"},
  {"name": "easyeffects_sink.monitor"},
  {"name": "loopback", "monitor_source": "loopback.monitor"},
  {"name": "sink_like", "properties": {"media.class": "Audio/Sink"}},
  {"name": "alsa_input.pci.analog-stereo", "description": "duplicate"},
  {"name": 42}
]"#;

#[test]
fn pactl_sources_are_classified() {
    let mut sources = Vec::new();
    add_pulse_sources(&mut sources, PACTL_JSON.as_bytes());
    assert_eq!(
        summary(&sources),
        vec![
            (
                "pulse:alsa_output.pci.analog-stereo.monitor".to_string(),
                "Monitor of Built-in Audio".to_string(),
                AudioSourceKind::DesktopOutput,
                false
            ),
            (
                "pulse:alsa_input.pci.analog-stereo".to_string(),
                "Built-in Audio Analog Stereo".to_string(),
                AudioSourceKind::Microphone,
                false
            ),
            (
                "pulse:easyeffects_sink.monitor".to_string(),
                "easyeffects_sink.monitor".to_string(),
                AudioSourceKind::DesktopOutput,
                false
            ),
            (
                "pulse:loopback".to_string(),
                "loopback".to_string(),
                AudioSourceKind::DesktopOutput,
                false
            ),
            (
                "pulse:sink_like".to_string(),
                "sink_like".to_string(),
                AudioSourceKind::DesktopOutput,
                false
            ),
        ]
    );
}

#[test]
fn pactl_output_that_is_not_an_array_adds_nothing() {
    let mut sources = Vec::new();
    add_pulse_sources(&mut sources, b"{\"name\": \"x\"}");
    add_pulse_sources(&mut sources, b"not json");
    add_pulse_sources(&mut sources, b"");
    assert!(sources.is_empty());
}

#[test]
fn source_list_orders_pulse_default_then_devices() {
    let sources = list_audio_sources(
        Some(PACTL_JSON.as_bytes()),
        Some(Some("HDA Intel PCH".to_string())),
        vec![
            Some("HDA Intel PCH".to_string()),
            None,
            Some("USB Mic".to_string()),
            None,
        ],
    );
    let ids: Vec<&str> = sources.iter().map(|s| s.id.as_str()).collect();
    assert_eq!(
        ids,
        vec![
            "pulse:alsa_output.pci.analog-stereo.monitor",
            "pulse:alsa_input.pci.analog-stereo",
            "pulse:easyeffects_sink.monitor",
            "pulse:loopback",
            "pulse:sink_like",
            "HDA Intel PCH",
            "unknown input",
            "USB Mic",
        ]
    );
    let default = &sources[5];
    assert_eq!(default.name, "HDA Intel PCH");
    assert_eq!(default.kind, AudioSourceKind::Microphone);
    assert!(default.is_default);
    assert!(!sources[6].is_default);
    assert!(!sources[7].is_default);
}

#[test]
fn unnamed_default_device_is_listed_as_default_input() {
    let sources = list_audio_sources(None, Some(None), vec![Some("default input".to_string())]);
    assert_eq!(
        summary(&sources),
        vec![(
            "default input".to_string(),
            "default input".to_string(),
            AudioSourceKind::Microphone,
            true
        )]
    );
}

#[test]
fn device_named_like_the_default_is_marked_default() {
    let sources = list_audio_sources(
        None,
        None,
        vec![Some("Mic".to_string())],
    );
    assert_eq!(
        summary(&sources),
        vec![("Mic".to_string(), "Mic".to_string(), AudioSourceKind::Microphone, false)]
    );
    let empty = list_audio_sources(None, None, Vec::new());
    assert!(empty.is_empty());
}

fn entry(name: Option<&str>, description: Option<&str>, media: Option<&str>, device: Option<&str>, monitor: Option<&str>) -> whisper_overlay::source::PactlEntry {
    whisper_overlay::source::PactlEntry {
        name: name.map(str::to_string),
        description: description.map(str::to_string),
        media_class: media.map(str::to_string),
        device_class: device.map(str::to_string),
        monitor_source: monitor.map(str::to_string),
    }
}

#[test]
fn pactl_entry_classification() {
    assert!(pulse_source_from_entry(&entry(None, Some("d"), None, None, None)).is_none());
    assert!(pulse_source_from_entry(&entry(Some(""), Some("d"), None, None, None)).is_none());
    let mic = pulse_source_from_entry(&entry(Some("alsa_input.usb"), None, Some("Audio/Source"), Some("sound"), Some(""))).unwrap();
    assert_eq!(
        (mic.id.as_str(), mic.name.as_str(), mic.kind, mic.is_default),
        ("pulse:alsa_input.usb", "alsa_input.usb", AudioSourceKind::Microphone, false)
    );
    for e in [
        entry(Some("a"), Some("A"), None, None, Some("a.monitor")),
        entry(Some("a"), Some("A"), None, Some("monitor"), None),
        entry(Some("a"), Some("A"), Some("Audio/Sink"), None, None),
        entry(Some("a.monitor"), Some("A"), None, None, None),
    ] {
        let s = pulse_source_from_entry(&e).unwrap();
        assert_eq!(s.kind, AudioSourceKind::DesktopOutput);
        assert_eq!(s.name, "A");
    }
    let not_monitor = pulse_source_from_entry(&entry(Some("a"), None, Some("Audio/Sink "), Some("Monitor"), None)).unwrap();
    assert_eq!(not_monitor.kind, AudioSourceKind::Microphone);
}

#[test]
fn pactl_entries_are_added_in_order_once() {
    let mut sources = vec![descriptor("pulse:b", "kept", AudioSourceKind::Microphone, false)];
    whisper_overlay::source::add_pactl_entries(
        &mut sources,
        vec![
            entry(Some("a"), None, None, None, None),
            entry(Some("b"), Some("dropped"), None, None, None),
            entry(None, Some("no name"), None, None, None),
            entry(Some("c.monitor"), Some("C"), None, None, None),
        ],
    );
    assert_eq!(
        summary(&sources),
        vec![
            ("pulse:b".to_string(), "kept".to_string(), AudioSourceKind::Microphone, false),
            ("pulse:a".to_string(), "a".to_string(), AudioSourceKind::Microphone, false),
            ("pulse:c.monitor".to_string(), "C".to_string(), AudioSourceKind::DesktopOutput, false),
        ]
    );
}
