# whisper-overlay (core library)

The logic of the whisper-overlay client as a library, each function with
its contract:

- `src/source.rs` — audio source kinds, the source list built from `pactl`
  output and the input devices, each id listed once.
- `src/capture.rs` — which capture path a source takes, which PulseAudio
  monitor and which input device are used, which input configuration is
  chosen, how recorded chunks are kept, and the level report counters.
- `src/pcm.rs` — byte counts of recordings, PulseAudio recordings as
  samples, and WAV file bytes.
- `src/config.rs` — settings, their defaults, the server endpoint derived
  from an address, and the configuration file path.
- `src/settings.rs` — labels and the source drop-down of the settings form.
- `src/protocol.rs` — transcription results.
- `src/text.rs`, `src/json.rs` — string operations and the JSON reading
  through `serde_json`.

`app/` holds the program around it: command-line parsing, audio devices and
streams (cpal, `parec`), the floating-point duration, level and resampling
code, the
TOML configuration file and the GTK settings window.
