use whisper_overlay::capture::{select_input_device_lowered, select_pulse_source_name_lowered};
use whisper_overlay::capture::{
    capture_route, select_input_device, select_pulse_source_name, select_supported_config,
    store_recorded_chunk, wants_default_input, CaptureRoute, ChunkCounters, ChunkReport,
    ConfigChoice, DeviceChoice, SampleFormatKind, SupportedRange,
};
use whisper_overlay::source::{AudioCaptureConfig, AudioSourceDescriptor, AudioSourceKind};

fn config(kind: AudioSourceKind, id: &str) -> AudioCaptureConfig {
    AudioCaptureConfig { source_kind: kind, source_id: id.to_string() }
}

fn source(id: &str, name: &str, kind: AudioSourceKind) -> AudioSourceDescriptor {
    AudioSourceDescriptor { id: id.to_string(), name: name.to_string(), kind, is_default: false }
}

#[test]
fn capture_routes_by_kind() {
    let route = |kind, id: &str| capture_route(&config(kind, id));
    assert_eq!(route(AudioSourceKind::Application, "default"), CaptureRoute::Unsupported);
    assert_eq!(route(AudioSourceKind::Application, "pulse:app"), CaptureRoute::Unsupported);
    assert_eq!(route(AudioSourceKind::DesktopOutput, "default"), CaptureRoute::PulseSource);
    assert_eq!(route(AudioSourceKind::OutputDevice, "HDA Intel"), CaptureRoute::PulseSource);
    assert_eq!(route(AudioSourceKind::Microphone, "default"), CaptureRoute::InputDevice);
    assert_eq!(route(AudioSourceKind::Microphone, "USB Mic"), CaptureRoute::InputDevice);
}

#[test]
fn listed_pulse_microphone_is_captured_from_pulse() {
    let c = config(AudioSourceKind::Microphone, "pulse:alsa_input.usb");
    assert_eq!(capture_route(&c), CaptureRoute::PulseSource);
    assert_eq!(select_pulse_source_name(&c, &listed()), Some("alsa_input.usb".to_string()));
}

fn listed() -> Vec<AudioSourceDescriptor> {
    vec![
        source("pulse:mic", "Built-in Microphone", AudioSourceKind::Microphone),
        source("Loopback", "Loopback Monitor", AudioSourceKind::DesktopOutput),
        source("pulse:alsa.monitor", "Monitor of Built-in Audio", AudioSourceKind::DesktopOutput),
        source("pulse:easy.monitor", "EasyEffects Sink Monitor", AudioSourceKind::DesktopOutput),
    ]
}

#[test]
fn pulse_ids_are_used_as_given() {
    let c = config(AudioSourceKind::DesktopOutput, "pulse:easyeffects_sink.monitor");
    assert_eq!(select_pulse_source_name(&c, &Vec::new()), Some("easyeffects_sink.monitor".to_string()));
}

#[test]
fn monitor_is_found_by_name_ignoring_case() {
    let c = config(AudioSourceKind::DesktopOutput, "EASYEFFECTS");
    assert_eq!(select_pulse_source_name(&c, &listed()), Some("easy.monitor".to_string()));
}

#[test]
fn matching_non_pulse_monitor_gives_none() {
    let c = config(AudioSourceKind::DesktopOutput, "loopback");
    assert_eq!(select_pulse_source_name(&c, &listed()), None);
}

#[test]
fn default_or_unmatched_id_takes_first_pulse_monitor() {
    let only_pulse: Vec<AudioSourceDescriptor> = listed().into_iter().filter(|s| s.id != "Loopback").collect();
    let c = config(AudioSourceKind::DesktopOutput, "default");
    assert_eq!(select_pulse_source_name(&c, &only_pulse), Some("alsa.monitor".to_string()));
    let c = config(AudioSourceKind::OutputDevice, "no such source");
    assert_eq!(select_pulse_source_name(&c, &only_pulse), Some("alsa.monitor".to_string()));
    // The first desktop source is not a pulse source: nothing is chosen.
    assert_eq!(select_pulse_source_name(&c, &listed()), None);
    assert_eq!(select_pulse_source_name(&c, &Vec::new()), None);
}

fn names(list: &[&str]) -> Vec<String> {
    list.iter().map(|s| s.to_string()).collect()
}

#[test]
fn default_microphone_skips_enumeration() {
    let c = config(AudioSourceKind::Microphone, "default");
    assert!(wants_default_input(&c));
    assert_eq!(select_input_device(&c, &names(&["a", "b"])), DeviceChoice::DefaultDevice);
    assert!(!wants_default_input(&config(AudioSourceKind::DesktopOutput, "default")));
    assert!(!wants_default_input(&config(AudioSourceKind::Microphone, "USB")));
}

#[test]
fn input_device_found_by_exact_or_partial_name() {
    let devices = names(&["HDA Intel PCH", "USB Audio Device", "usb headset"]);
    let c = config(AudioSourceKind::Microphone, "USB Audio Device");
    assert_eq!(select_input_device(&c, &devices), DeviceChoice::Listed(1));
    let c = config(AudioSourceKind::Microphone, "usb");
    assert_eq!(select_input_device(&c, &devices), DeviceChoice::Listed(1));
    let c = config(AudioSourceKind::Microphone, "HEADSET");
    assert_eq!(select_input_device(&c, &devices), DeviceChoice::Listed(2));
    let c = config(AudioSourceKind::Microphone, "bluetooth");
    assert_eq!(select_input_device(&c, &devices), DeviceChoice::NotFound);
    let c = config(AudioSourceKind::OutputDevice, "default");
    assert_eq!(select_input_device(&c, &devices), DeviceChoice::DefaultDevice);
}

fn range(min: u32, max: u32, channels: u16, format: SampleFormatKind) -> SupportedRange {
    SupportedRange { min_sample_rate: min, max_sample_rate: max, channels, format }
}

#[test]
fn supported_config_prefers_16k_mono_i16() {
    let ranges = vec![
        range(44100, 48000, 2, SampleFormatKind::F32),
        range(8000, 96000, 1, SampleFormatKind::U16),
        range(8000, 96000, 1, SampleFormatKind::I16),
        range(8000, 96000, 1, SampleFormatKind::I16),
    ];
    assert_eq!(select_supported_config(&ranges), Some(ConfigChoice { index: 2, sample_rate: 16000 }));
}

#[test]
fn supported_config_scores_rate_channels_and_format() {
    // 44100 Hz stereo f32: 28100 + 1000 + 100; 48000 Hz mono other: 32000 + 500.
    let ranges = vec![
        range(48000, 48000, 1, SampleFormatKind::Other),
        range(44100, 48000, 2, SampleFormatKind::F32),
        range(8000, 11025, 6, SampleFormatKind::I16),
    ];
    // 11025 Hz, six channels, i16: 4975 + 5000 = 9975 wins.
    assert_eq!(select_supported_config(&ranges), Some(ConfigChoice { index: 2, sample_rate: 11025 }));
    let ranges = vec![
        range(48000, 48000, 1, SampleFormatKind::Other),
        range(44100, 48000, 2, SampleFormatKind::F32),
    ];
    assert_eq!(select_supported_config(&ranges), Some(ConfigChoice { index: 1, sample_rate: 44100 }));
    assert_eq!(select_supported_config(&Vec::new()), None);
}

#[test]
fn supported_formats() {
    assert!(SampleFormatKind::I16.is_supported_input());
    assert!(SampleFormatKind::U16.is_supported_input());
    assert!(SampleFormatKind::F32.is_supported_input());
    assert!(!SampleFormatKind::Other.is_supported_input());
}

#[test]
fn recorded_chunks_stop_at_target() {
    let mut recorded = vec![1i16, 2];
    store_recorded_chunk(&mut recorded, &vec![3, 4, 5], 4);
    assert_eq!(recorded, vec![1, 2, 3, 4]);
    store_recorded_chunk(&mut recorded, &vec![6], 4);
    assert_eq!(recorded, vec![1, 2, 3, 4]);
    let mut recorded = Vec::new();
    store_recorded_chunk(&mut recorded, &vec![7, 8], 10);
    assert_eq!(recorded, vec![7, 8]);
}

#[test]
fn level_report_every_250_chunks() {
    let mut counters = ChunkCounters::new();
    for i in 0..249u32 {
        assert_eq!(counters.observe(i % 5 != 0), None);
    }
    assert_eq!(counters.chunks_seen, 249);
    assert_eq!(counters.chunks_sent + counters.chunks_silent, 249);
    let report = counters.observe(false);
    assert_eq!(report, Some(ChunkReport { sent_chunks: 199, silent_chunks: 51 }));
    assert_eq!(counters, ChunkCounters::new());
}

#[test]
fn scores_must_fit_in_32_bits() {
    assert!(whisper_overlay::capture::ranges_scores_fit(&vec![range(8000, 96000, 2, SampleFormatKind::F32)]));
    assert!(whisper_overlay::capture::ranges_scores_fit(&Vec::new()));
    assert!(!whisper_overlay::capture::ranges_scores_fit(&vec![
        range(8000, 96000, 1, SampleFormatKind::I16),
        range(u32::MAX, u32::MAX, 100, SampleFormatKind::Other),
    ]));
}

#[test]
fn lowered_forms_are_compared() {
    let c = config(AudioSourceKind::Microphone, "Mic");
    let devices = names(&["USB MIC", "Other"]);
    assert_eq!(
        select_input_device_lowered(&c, &devices, &names(&["usb mic", "other"]), "mic"),
        DeviceChoice::Listed(0)
    );
    assert_eq!(
        select_input_device_lowered(&c, &devices, &names(&["x", "y"]), "mic"),
        DeviceChoice::NotFound
    );
    let list = listed();
    let lowered = names(&["", "", "", "special"]);
    let c = config(AudioSourceKind::DesktopOutput, "Whatever");
    assert_eq!(select_pulse_source_name_lowered(&c, &list, &lowered, "spec"), Some("easy.monitor".to_string()));
}
