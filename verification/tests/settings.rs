use whisper_overlay::settings::{
    audio_source_choices, audio_source_kind_label, audio_source_matches,
    default_audio_source_label,
};
use whisper_overlay::source::{AudioSourceDescriptor, AudioSourceKind};

fn source(id: &str, name: &str, kind: AudioSourceKind, is_default: bool) -> AudioSourceDescriptor {
    AudioSourceDescriptor { id: id.to_string(), name: name.to_string(), kind, is_default }
}

fn listed() -> Vec<AudioSourceDescriptor> {
    vec![
        source("pulse:mon", "Monitor of Built-in", AudioSourceKind::DesktopOutput, false),
        source("HDA Intel", "HDA Intel", AudioSourceKind::Microphone, true),
        source("USB", "USB Mic", AudioSourceKind::Microphone, false),
    ]
}

fn entries(kind: AudioSourceKind, current: &str) -> (Vec<(String, String)>, usize) {
    let c = audio_source_choices(&kind, &listed(), current);
    (c.entries.into_iter().map(|e| (e.id, e.label)).collect(), c.active)
}

fn pair(id: &str, label: &str) -> (String, String) {
    (id.to_string(), label.to_string())
}

#[test]
fn kinds_match_only_themselves() {
    let kinds = [
        AudioSourceKind::Microphone,
        AudioSourceKind::DesktopOutput,
        AudioSourceKind::OutputDevice,
        AudioSourceKind::Application,
    ];
    for a in kinds {
        for b in kinds {
            assert_eq!(audio_source_matches(&a, &b), a == b);
        }
    }
}

#[test]
fn labels() {
    assert_eq!(default_audio_source_label(&AudioSourceKind::Microphone), "Default microphone");
    assert_eq!(default_audio_source_label(&AudioSourceKind::DesktopOutput), "Default desktop audio");
    assert_eq!(default_audio_source_label(&AudioSourceKind::OutputDevice), "Default output device");
    assert_eq!(default_audio_source_label(&AudioSourceKind::Application), "Default application");
    assert_eq!(audio_source_kind_label(&AudioSourceKind::Microphone), "Microphone");
    assert_eq!(audio_source_kind_label(&AudioSourceKind::DesktopOutput), "Desktop audio");
    assert_eq!(audio_source_kind_label(&AudioSourceKind::OutputDevice), "Output");
    assert_eq!(audio_source_kind_label(&AudioSourceKind::Application), "Application");
}

#[test]
fn microphone_choices_select_current_device() {
    let (list, active) = entries(AudioSourceKind::Microphone, "USB");
    assert_eq!(
        list,
        vec![
            pair("default", "Default microphone"),
            pair("HDA Intel", "Microphone: HDA Intel (default)"),
            pair("USB", "Microphone: USB Mic"),
        ]
    );
    assert_eq!(active, 2);
}

#[test]
fn empty_current_selects_default_entry() {
    let (list, active) = entries(AudioSourceKind::DesktopOutput, "");
    assert_eq!(
        list,
        vec![pair("default", "Default desktop audio"), pair("pulse:mon", "Desktop audio: Monitor of Built-in")]
    );
    assert_eq!(active, 0);
}

#[test]
fn unknown_current_gets_manual_entry() {
    let (list, active) = entries(AudioSourceKind::Microphone, "hw:2,0");
    assert_eq!(list.len(), 4);
    assert_eq!(list[3], pair("hw:2,0", "Manual: hw:2,0"));
    assert_eq!(active, 3);
}

#[test]
fn kinds_without_sources_get_placeholder() {
    let (list, active) = entries(AudioSourceKind::Application, "firefox");
    assert_eq!(
        list,
        vec![
            pair("default", "Default application"),
            pair("firefox", "Manual: firefox"),
            pair("unsupported", "No matching source found"),
        ]
    );
    assert_eq!(active, 1);
    let (list, active) = entries(AudioSourceKind::OutputDevice, "");
    assert_eq!(list, vec![pair("default", "Default output device"), pair("unsupported", "No matching source found")]);
    assert_eq!(active, 0);
    // A current id found among the entries ends the list there.
    let (list, active) = entries(AudioSourceKind::OutputDevice, "default");
    assert_eq!(list, vec![pair("default", "Default output device")]);
    assert_eq!(active, 0);
}
