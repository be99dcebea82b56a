use gpgpu::config::{
    power_preference, Config, PowerPreference, PresentMode, TomlConfig, TomlConfigAdapter,
};
use gpgpu::Error;

fn empty() -> TomlConfig {
    TomlConfig { web: None, trace_path: None, present_mode: None, adapter_options: None }
}

#[test]
fn default_config() {
    let c = Config::default();
    assert!(!c.web);
    assert!(c.trace_path.is_none());
    assert_eq!(c.present_mode, PresentMode::Fifo);
    assert_eq!(c.adapter_options.power_preference, PowerPreference::HighPerformance);
    assert!(!c.adapter_options.force_fallback_adapter);
    let d = Config::from_toml(empty()).ok().unwrap();
    assert_eq!(d.present_mode, PresentMode::Fifo);
    assert!(d.to_trace_path().is_none());
}

#[test]
fn toml_entries_override_defaults() {
    let t = TomlConfig {
        web: Some(true),
        trace_path: Some("/tmp/trace".to_string()),
        present_mode: Some("mailbox".to_string()),
        adapter_options: Some(TomlConfigAdapter {
            power_preference: Some("low_power".to_string()),
            force_fallback_adapter: Some(true),
        }),
    };
    let c = Config::from_toml(t).ok().unwrap();
    assert!(c.web);
    assert_eq!(c.to_trace_path(), Some("/tmp/trace"));
    assert_eq!(c.present_mode, PresentMode::Mailbox);
    assert_eq!(c.adapter_options.power_preference, PowerPreference::LowPower);
    assert!(c.adapter_options.force_fallback_adapter);
    let e = Config::from_toml(TomlConfig { trace_path: Some(String::new()), ..empty() }).ok().unwrap();
    assert!(e.trace_path.is_none());
}

#[test]
fn bad_entries_are_errors() {
    match Config::from_toml(TomlConfig { present_mode: Some("vsync".to_string()), ..empty() }) {
        Err(Error::Invalid(_, msg)) => assert_eq!(msg, "present_mode vsync"),
        _ => panic!("expected an error"),
    }
    let t = TomlConfig {
        adapter_options: Some(TomlConfigAdapter {
            power_preference: Some("max".to_string()),
            force_fallback_adapter: None,
        }),
        ..empty()
    };
    match Config::from_toml(t) {
        Err(Error::Invalid(_, msg)) => {
            assert_eq!(msg, "invalid config.adapter_options.power_preference")
        }
        _ => panic!("expected an error"),
    }
    assert_eq!(power_preference("high_performance").ok(), Some(PowerPreference::HighPerformance));
    assert!(power_preference("").is_err());
}
