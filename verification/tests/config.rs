use whisper_overlay::config::{
    config_path, AudioConfig, ClientConfig, ModelsConfig, OnnxConfig, RealtimeSttConfig,
    ServerConfig,
};

#[test]
fn client_defaults() {
    let c = ClientConfig::default();
    assert_eq!(c.address, "localhost:7007");
    assert_eq!(c.hotkey, "KEY_RIGHTCTRL");
    assert_eq!(c.style, "");
    assert_eq!(c.type_field, "text");
}

#[test]
fn audio_defaults() {
    let a = AudioConfig::default();
    assert_eq!(a.source_kind, "microphone");
    assert_eq!(a.source_id, "default");
    assert_eq!(a.capture_mode, "push-to-talk");
    assert_eq!(a.sample_rate, 16000);
    assert_eq!(a.channels, 1);
}

#[test]
fn server_defaults() {
    let s = ServerConfig::default();
    assert_eq!(s.backend, "realtime-stt");
    assert_eq!(s.host, "localhost");
    assert_eq!(s.port, 7007);
    assert_eq!(s.language, "");
    assert_eq!(s.task, "transcribe");
    assert_eq!(s.target_language, "");
}

#[test]
fn backend_defaults() {
    let r = RealtimeSttConfig::default();
    assert_eq!(
        (r.device.as_str(), r.model.as_str(), r.model_realtime.as_str(), r.model_source.as_str(), r.custom_model.as_str()),
        ("cuda", "large-v3", "base", "builtin", "")
    );
    let o = OnnxConfig::default();
    assert_eq!(
        (o.model.as_str(), o.provider.as_str(), o.device.as_str(), o.compute_type.as_str(), o.model_source.as_str(), o.custom_model.as_str()),
        ("optimum/whisper-tiny.en", "auto", "auto", "auto", "builtin", "")
    );
    let m = ModelsConfig::default();
    assert_eq!((m.cache_dir.as_str(), m.catalog_url.as_str()), ("", ""));
}

fn endpoint(address: &str) -> (String, u16) {
    let s = ServerConfig::from_settings("onnx", address, "en", "translate", "th");
    assert_eq!(s.backend, "onnx");
    assert_eq!(s.language, "en");
    assert_eq!(s.task, "translate");
    assert_eq!(s.target_language, "th");
    (s.host, s.port)
}

#[test]
fn server_endpoint_from_address() {
    assert_eq!(endpoint("gpu-box:8080"), ("gpu-box".to_string(), 8080));
    assert_eq!(endpoint("localhost:7007"), ("localhost".to_string(), 7007));
    assert_eq!(endpoint("gpu-box"), ("gpu-box".to_string(), 7007));
    assert_eq!(endpoint("gpu-box:"), ("gpu-box".to_string(), 7007));
    assert_eq!(endpoint("gpu-box:+99"), ("gpu-box".to_string(), 99));
    assert_eq!(endpoint("gpu-box:65535"), ("gpu-box".to_string(), 65535));
    assert_eq!(endpoint("gpu-box:65536"), ("gpu-box".to_string(), 7007));
    assert_eq!(endpoint("gpu-box:-1"), ("gpu-box".to_string(), 7007));
    assert_eq!(endpoint("gpu-box: 80"), ("gpu-box".to_string(), 7007));
    assert_eq!(endpoint("gpu-box:80:90"), ("gpu-box".to_string(), 80));
    assert_eq!(endpoint(":80"), ("".to_string(), 80));
    assert_eq!(endpoint(""), ("".to_string(), 7007));
}

#[test]
fn form_settings_keep_fixed_fields() {
    let a = AudioConfig::from_settings("desktop-output", "pulse:x.monitor", "toggle-live-caption");
    assert_eq!(a.source_kind, "desktop-output");
    assert_eq!(a.source_id, "pulse:x.monitor");
    assert_eq!(a.capture_mode, "toggle-live-caption");
    assert_eq!((a.sample_rate, a.channels), (16000, 1));
    let r = RealtimeSttConfig::from_settings("cpu", "medium", "small");
    assert_eq!((r.device.as_str(), r.model.as_str(), r.model_realtime.as_str()), ("cpu", "medium", "small"));
    assert_eq!((r.model_source.as_str(), r.custom_model.as_str()), ("builtin", ""));
    let o = OnnxConfig::from_settings("m", "cuda", "fp16", "catalog", "c");
    assert_eq!(o.device, "auto");
    assert_eq!(
        (o.model.as_str(), o.provider.as_str(), o.compute_type.as_str(), o.model_source.as_str(), o.custom_model.as_str()),
        ("m", "cuda", "fp16", "catalog", "c")
    );
}

fn path(xdg: Option<&str>, home: Option<&str>) -> Option<String> {
    config_path(xdg.map(|s| s.as_bytes().to_vec()), home.map(|s| s.as_bytes().to_vec()))
        .map(|p| String::from_utf8(p).unwrap())
}

#[test]
fn config_file_location() {
    assert_eq!(path(Some("/home/u/.cfg"), Some("/home/u")), Some("/home/u/.cfg/whisper-overlay/config.toml".to_string()));
    assert_eq!(path(None, Some("/home/u")), Some("/home/u/.config/whisper-overlay/config.toml".to_string()));
    assert_eq!(path(None, Some("/home/u/")), Some("/home/u/.config/whisper-overlay/config.toml".to_string()));
    assert_eq!(path(Some("/etc/"), None), Some("/etc/whisper-overlay/config.toml".to_string()));
    assert_eq!(path(Some(""), None), Some("whisper-overlay/config.toml".to_string()));
    assert_eq!(path(None, None), None);
}
