use commonlib::filter::{EnvOverrides, LevelFilter};
use commonlib::level::LogLevel;

fn no_env() -> EnvOverrides {
    EnvOverrides { level: String::new(), force: String::new() }
}

#[test]
fn global_info_admits_warn_not_debug() {
    let f = LevelFilter::new(LogLevel::Info);
    assert!(f.is_enabled(Some("any"), LogLevel::Warn, &no_env()));
    assert!(!f.is_enabled(Some("any"), LogLevel::Debug, &no_env()));
}

#[test]
fn module_override_admits_debug_when_not_forced() {
    let f = LevelFilter::new(LogLevel::Info).module_filter("mod.x", LogLevel::Debug);
    let env = EnvOverrides { level: String::new(), force: "0".to_string() };
    assert!(f.is_enabled(Some("mod.x"), LogLevel::Debug, &env));
    assert!(!f.is_enabled(Some("mod.y"), LogLevel::Debug, &env));
}

#[test]
fn module_override_yields_to_global_level_by_default() {
    let f = LevelFilter::new(LogLevel::Info).module_filter("mod.x", LogLevel::Debug);
    assert!(!f.is_enabled(Some("mod.x"), LogLevel::Debug, &no_env()));
    assert!(f.is_enabled(Some("mod.x"), LogLevel::Info, &no_env()));
}

#[test]
fn module_override_can_be_stricter() {
    let f = LevelFilter::new(LogLevel::Trace).module_filter("noisy", LogLevel::Error);
    assert!(!f.is_enabled(Some("noisy"), LogLevel::Warn, &no_env()));
    assert!(f.is_enabled(Some("noisy"), LogLevel::Error, &no_env()));
}

#[test]
fn environment_level_overrides_global() {
    let f = LevelFilter::new(LogLevel::Info);
    let env = EnvOverrides { level: "trace".to_string(), force: String::new() };
    assert!(f.is_enabled(None, LogLevel::Trace, &env));
    let bad = EnvOverrides { level: "loud".to_string(), force: String::new() };
    assert!(!f.is_enabled(None, LogLevel::Trace, &bad));
}

#[test]
fn off_rejects_everything() {
    let f = LevelFilter::new(LogLevel::Off).module_filter("m", LogLevel::Trace);
    let env = EnvOverrides { level: "trace".to_string(), force: "0".to_string() };
    assert!(!f.is_enabled(Some("m"), LogLevel::Error, &env));
    assert!(!f.is_enabled(None, LogLevel::Error, &env));
}

#[test]
fn later_module_filter_replaces_earlier() {
    let f = LevelFilter::new(LogLevel::Info)
        .module_filter("m", LogLevel::Error)
        .module_filter("m", LogLevel::Info);
    assert_eq!(f.module_level("m"), Some(LogLevel::Info));
    assert_eq!(f.module_level("n"), None);
}
