//! The persisted client and server settings, their defaults, the server
//! endpoint that the settings form derives from an address, and where the
//! configuration file lives.

use vstd::prelude::*;
use crate::text::{parse_u16, parse_u16_spec, split_first, split_first_spec};

verus! {

/// Settings of the overlay client.
#[derive(Debug, Clone)]
pub struct ClientConfig {
    pub address: String,
    pub hotkey: String,
    pub style: String,
    pub type_field: String,
}

impl Default for ClientConfig {
    /// Server at `localhost:7007`, hotkey right Ctrl, built-in style, and
    /// the `text` field typed.
    fn default() -> (r: Self)
        ensures
            r.address@ == "localhost:7007"@,
            r.hotkey@ == "KEY_RIGHTCTRL"@,
            r.style@ == Seq::<char>::empty(),
            r.type_field@ == "text"@,
    {
        ClientConfig {
            address: String::from_str("localhost:7007"),
            hotkey: String::from_str("KEY_RIGHTCTRL"),
            style: String::new(),
            type_field: String::from_str("text"),
        }
    }
}

/// Settings of audio capture.
#[derive(Debug, Clone)]
pub struct AudioConfig {
    pub source_kind: String,
    pub source_id: String,
    pub capture_mode: String,
    pub sample_rate: u32,
    pub channels: u16,
}

impl Default for AudioConfig {
    /// The default microphone, push-to-talk, 16 kHz mono.
    fn default() -> (r: Self)
        ensures
            r.source_kind@ == "microphone"@,
            r.source_id@ == "default"@,
            r.capture_mode@ == "push-to-talk"@,
            r.sample_rate == 16000,
            r.channels == 1,
    {
        AudioConfig {
            source_kind: String::from_str("microphone"),
            source_id: String::from_str("default"),
            capture_mode: String::from_str("push-to-talk"),
            sample_rate: 16000,
            channels: 1,
        }
    }
}

impl AudioConfig {
    /// The audio settings that the settings form saves: its source kind,
    /// source and capture mode, with the default rate and channel count.
    pub fn from_settings(source_kind: &str, source_id: &str, capture_mode: &str) -> (r: AudioConfig)
        ensures
            r.source_kind@ == source_kind@,
            r.source_id@ == source_id@,
            r.capture_mode@ == capture_mode@,
            r.sample_rate == 16000,
            r.channels == 1,
    {
        let defaults = AudioConfig::default();
        AudioConfig {
            source_kind: String::from_str(source_kind),
            source_id: String::from_str(source_id),
            capture_mode: String::from_str(capture_mode),
            sample_rate: defaults.sample_rate,
            channels: defaults.channels,
        }
    }
}

/// Settings of the speech server.
#[derive(Debug, Clone)]
pub struct ServerConfig {
    pub backend: String,
    pub host: String,
    pub port: u16,
    pub language: String,
    pub task: String,
    pub target_language: String,
}

impl Default for ServerConfig {
    /// The RealtimeSTT backend on `localhost:7007`, transcribing, language
    /// detected.
    fn default() -> (r: Self)
        ensures
            r.backend@ == "realtime-stt"@,
            r.host@ == "localhost"@,
            r.port == 7007,
            r.language@ == Seq::<char>::empty(),
            r.task@ == "transcribe"@,
            r.target_language@ == Seq::<char>::empty(),
    {
        ServerConfig {
            backend: String::from_str("realtime-stt"),
            host: String::from_str("localhost"),
            port: 7007,
            language: String::new(),
            task: String::from_str("transcribe"),
            target_language: String::new(),
        }
    }
}

/// The port that the settings form reads from an address: the text between
/// the first and a second `:`, when it parses as a port; 7007 otherwise.
pub open spec fn address_port_spec(address: Seq<char>) -> u16 {
    match split_first_spec(address, ':').1 {
        Some(rest) => match parse_u16_spec(split_first_spec(rest, ':').0) {
            Some(port) => port,
            None => 7007,
        },
        None => 7007,
    }
}

/// The host that the settings form reads from an address: the text before
/// the first `:`.
pub open spec fn address_host_spec(address: Seq<char>) -> Seq<char> {
    split_first_spec(address, ':').0
}

impl ServerConfig {
    /// The server settings that the settings form saves: host and port
    /// come from the client address (`host:port`), the rest from the form.
    pub fn from_settings(
        backend: &str,
        address: &str,
        language: &str,
        task: &str,
        target_language: &str,
    ) -> (r: ServerConfig)
        ensures
            r.backend@ == backend@,
            r.host@ == address_host_spec(address@),
            r.port == address_port_spec(address@),
            r.language@ == language@,
            r.task@ == task@,
            r.target_language@ == target_language@,
    {
        let (host, rest) = split_first(address, ':');
        let port = match rest {
            Some(rest) => {
                let (piece, _) = split_first(rest, ':');
                match parse_u16(piece) {
                    Some(port) => port,
                    None => 7007,
                }
            },
            None => 7007,
        };
        ServerConfig {
            backend: String::from_str(backend),
            host: String::from_str(host),
            port,
            language: String::from_str(language),
            task: String::from_str(task),
            target_language: String::from_str(target_language),
        }
    }
}

/// Settings of the RealtimeSTT backend.
#[derive(Debug, Clone)]
pub struct RealtimeSttConfig {
    pub device: String,
    pub model: String,
    pub model_realtime: String,
    pub model_source: String,
    pub custom_model: String,
}

impl Default for RealtimeSttConfig {
    /// CUDA, `large-v3` for final and `base` for live transcription.
    fn default() -> (r: Self)
        ensures
            r.device@ == "cuda"@,
            r.model@ == "large-v3"@,
            r.model_realtime@ == "base"@,
            r.model_source@ == "builtin"@,
            r.custom_model@ == Seq::<char>::empty(),
    {
        RealtimeSttConfig {
            device: String::from_str("cuda"),
            model: String::from_str("large-v3"),
            model_realtime: String::from_str("base"),
            model_source: String::from_str("builtin"),
            custom_model: String::new(),
        }
    }
}

impl RealtimeSttConfig {
    /// The RealtimeSTT settings that the settings form saves: its device
    /// and models, with built-in models and no custom model.
    pub fn from_settings(device: &str, model: &str, model_realtime: &str) -> (r: RealtimeSttConfig)
        ensures
            r.device@ == device@,
            r.model@ == model@,
            r.model_realtime@ == model_realtime@,
            r.model_source@ == "builtin"@,
            r.custom_model@ == Seq::<char>::empty(),
    {
        RealtimeSttConfig {
            device: String::from_str(device),
            model: String::from_str(model),
            model_realtime: String::from_str(model_realtime),
            model_source: String::from_str("builtin"),
            custom_model: String::new(),
        }
    }
}

/// Settings of the ONNX backend.
#[derive(Debug, Clone)]
pub struct OnnxConfig {
    pub model: String,
    pub provider: String,
    pub device: String,
    pub compute_type: String,
    pub model_source: String,
    pub custom_model: String,
}

impl Default for OnnxConfig {
    /// `optimum/whisper-tiny.en` with automatic provider, device and
    /// compute type.
    fn default() -> (r: Self)
        ensures
            r.model@ == "optimum/whisper-tiny.en"@,
            r.provider@ == "auto"@,
            r.device@ == "auto"@,
            r.compute_type@ == "auto"@,
            r.model_source@ == "builtin"@,
            r.custom_model@ == Seq::<char>::empty(),
    {
        OnnxConfig {
            model: String::from_str("optimum/whisper-tiny.en"),
            provider: String::from_str("auto"),
            device: String::from_str("auto"),
            compute_type: String::from_str("auto"),
            model_source: String::from_str("builtin"),
            custom_model: String::new(),
        }
    }
}

impl OnnxConfig {
    /// The ONNX settings that the settings form saves: its model, provider,
    /// compute type, model source and custom model, on the `auto` device.
    pub fn from_settings(
        model: &str,
        provider: &str,
        compute_type: &str,
        model_source: &str,
        custom_model: &str,
    ) -> (r: OnnxConfig)
        ensures
            r.model@ == model@,
            r.provider@ == provider@,
            r.device@ == "auto"@,
            r.compute_type@ == compute_type@,
            r.model_source@ == model_source@,
            r.custom_model@ == custom_model@,
    {
        OnnxConfig {
            model: String::from_str(model),
            provider: String::from_str(provider),
            device: String::from_str("auto"),
            compute_type: String::from_str(compute_type),
            model_source: String::from_str(model_source),
            custom_model: String::from_str(custom_model),
        }
    }
}

/// Where models are cached and listed.
#[derive(Debug, Clone)]
pub struct ModelsConfig {
    pub cache_dir: String,
    pub catalog_url: String,
}

impl Default for ModelsConfig {
    /// No cache directory and no catalog.
    fn default() -> (r: Self)
        ensures
            r.cache_dir@ == Seq::<char>::empty(),
            r.catalog_url@ == Seq::<char>::empty(),
    {
        ModelsConfig { cache_dir: String::new(), catalog_url: String::new() }
    }
}

// ---------------------------------------------------------------------------
// The configuration file
// ---------------------------------------------------------------------------

/// `/`
pub open spec fn path_separator() -> u8 {
    47u8
}

/// `base` joined with the relative path `part`, as `PathBuf::push` joins
/// them: a `/` goes between them unless `base` is empty or ends in one.
pub open spec fn path_join(base: Seq<u8>, part: Seq<u8>) -> Seq<u8> {
    if base.len() > 0 && base.last() != path_separator() {
        base + seq![path_separator()] + part
    } else {
        base + part
    }
}

/// `.config`
pub open spec fn dot_config() -> Seq<u8> {
    seq![46u8, 99, 111, 110, 102, 105, 103]
}

/// `whisper-overlay`
pub open spec fn config_dir_name() -> Seq<u8> {
    seq![119u8, 104, 105, 115, 112, 101, 114, 45, 111, 118, 101, 114, 108, 97, 121]
}

/// `config.toml`
pub open spec fn config_file_name() -> Seq<u8> {
    seq![99u8, 111, 110, 102, 105, 103, 46, 116, 111, 109, 108]
}

/// The configuration directory: `$XDG_CONFIG_HOME`, else `$HOME/.config`.
pub open spec fn config_home_spec(xdg_config_home: Option<Seq<u8>>, home: Option<Seq<u8>>) -> Option<
    Seq<u8>,
> {
    match xdg_config_home {
        Some(dir) => Some(dir),
        None => match home {
            Some(h) => Some(path_join(h, dot_config())),
            None => None,
        },
    }
}

/// The configuration file: `whisper-overlay/config.toml` in the
/// configuration directory.
pub open spec fn config_path_spec(xdg_config_home: Option<Seq<u8>>, home: Option<Seq<u8>>) -> Option<
    Seq<u8>,
> {
    match config_home_spec(xdg_config_home, home) {
        Some(dir) => Some(path_join(path_join(dir, config_dir_name()), config_file_name())),
        None => None,
    }
}

fn join_path(base: Vec<u8>, part: Vec<u8>) -> (r: Vec<u8>)
    ensures
        r@ == path_join(base@, part@),
{
    let mut out = base;
    let n = out.len();
    if n > 0 && out[n - 1] != 47u8 {
        out.push(47u8);
    }
    let mut part = part;
    out.append(&mut part);
    out
}

/// The path of the configuration file, from the values of
/// `XDG_CONFIG_HOME` and `HOME` as bytes; none when neither is set.
pub fn config_path(xdg_config_home: Option<Vec<u8>>, home: Option<Vec<u8>>) -> (r: Option<Vec<u8>>)
    ensures
        match r {
            Some(p) => config_path_spec(
                match xdg_config_home {
                    Some(x) => Some(x@),
                    None => None,
                },
                match home {
                    Some(h) => Some(h@),
                    None => None,
                },
            ) == Some(p@),
            None => xdg_config_home is None && home is None,
        },
{
    let dir = match xdg_config_home {
        Some(dir) => dir,
        None => match home {
            Some(h) => join_path(h, vec![46u8, 99, 111, 110, 102, 105, 103]),
            None => return None,
        },
    };
    let app_dir = join_path(
        dir,
        vec![119u8, 104, 105, 115, 112, 101, 114, 45, 111, 118, 101, 114, 108, 97, 121],
    );
    Some(join_path(app_dir, vec![99u8, 111, 110, 102, 105, 103, 46, 116, 111, 109, 108]))
}

/// The configuration file is always named `config.toml` inside a
/// `whisper-overlay` directory.
pub proof fn lemma_config_path_ends_with_file(xdg_config_home: Option<Seq<u8>>, home: Option<Seq<u8>>)
    ensures
        config_path_spec(xdg_config_home, home) matches Some(p) ==> {
            &&& (seq![path_separator()] + config_file_name()).is_suffix_of(p)
        },
{
    if let Some(p) = config_path_spec(xdg_config_home, home) {
        let dir = config_home_spec(xdg_config_home, home).unwrap();
        let app_dir = path_join(dir, config_dir_name());
        assert(app_dir.len() > 0);
        assert(app_dir.last() == 121u8);
        let suffix = seq![path_separator()] + config_file_name();
        assert(p =~= app_dir + suffix);
        assert(p.subrange(p.len() - suffix.len(), p.len() as int) =~= suffix);
    }
}

} // verus!
