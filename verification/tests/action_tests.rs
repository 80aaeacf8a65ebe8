//! Action dispatch: signal mapping, the safety guard, error messages,
//! and the small command-line decisions.

use systrix::actions::{guard_kill, map_signal, ActionError, SignalKind};
use systrix::cli::{clamp_refresh_interval, parse_export_format};
use systrix::export::{default_export_filename, export_extension, ExportFormat};
use systrix::remote::RemoteConfig;
use systrix::search::{contains_ci, eq_ignore_case, str_eq};

#[test]
fn test_map_signal() {
    assert_eq!(map_signal("SIGTERM"), SignalKind::Terminate);
    assert_eq!(map_signal("term"), SignalKind::Terminate);
    assert_eq!(map_signal("SIGKILL"), SignalKind::ForceKill);
    assert_eq!(map_signal("kill"), SignalKind::ForceKill);
    assert_eq!(map_signal("SIGINT"), SignalKind::Interrupt);
    assert_eq!(map_signal("Int"), SignalKind::Interrupt);
    assert_eq!(map_signal("HUP"), SignalKind::Terminate);
    assert_eq!(map_signal(""), SignalKind::Terminate);
}

#[test]
fn test_guard_kill() {
    assert_eq!(guard_kill(0, false), Err(ActionError::SystemProcess));
    assert_eq!(guard_kill(1, false), Err(ActionError::SystemProcess));
    assert_eq!(guard_kill(1, true), Ok(()));
    assert_eq!(guard_kill(2, false), Ok(()));
}

#[test]
fn test_error_messages() {
    assert_eq!(
        ActionError::SystemProcess.message(),
        "refusing to act on a system process"
    );
    assert_eq!(ActionError::NotFound.message(), "process not found");
    assert_eq!(ActionError::PermissionDenied.message(), "permission denied");
    assert_eq!(
        ActionError::Unsupported.message(),
        "not supported on this platform"
    );
    assert_eq!(ActionError::Failed.message(), "the operation failed");
}

#[test]
fn test_refresh_interval_floor() {
    assert_eq!(clamp_refresh_interval(50), 100);
    assert_eq!(clamp_refresh_interval(99), 100);
    assert_eq!(clamp_refresh_interval(100), 100);
    assert_eq!(clamp_refresh_interval(500), 500);
}

#[test]
fn test_parse_export_format() {
    assert_eq!(parse_export_format("csv"), Some(ExportFormat::Csv));
    assert_eq!(parse_export_format("CSV"), Some(ExportFormat::Csv));
    assert_eq!(parse_export_format("JSON"), Some(ExportFormat::Json));
    assert_eq!(parse_export_format("xml"), None);
    assert_eq!(parse_export_format("html"), None);
}

#[test]
fn test_export_filenames() {
    assert_eq!(export_extension(ExportFormat::Csv), "csv");
    assert_eq!(export_extension(ExportFormat::Json), "json");
    assert_eq!(export_extension(ExportFormat::Html), "html");
    assert_eq!(
        default_export_filename("20240101_000000", ExportFormat::Json),
        "systrix_export_20240101_000000.json"
    );
}

#[test]
fn test_remote_address() {
    let cfg = RemoteConfig {
        bind: "127.0.0.1".to_string(),
        port: 8080,
        token: String::new(),
    };
    assert_eq!(cfg.address(), "127.0.0.1:8080");
}

#[test]
fn test_search_primitives() {
    assert!(contains_ci("Chrome_Helper", "chrome"));
    assert!(contains_ci("bash", ""));
    assert!(!contains_ci("bash", "chrome"));
    assert!(contains_ci("naïve", "ïv"));
    assert!(!contains_ci("na", "naïve"));
    assert!(eq_ignore_case("SIGTERM", "sigterm"));
    assert!(!eq_ignore_case("SIGTERM", "sigkill"));
    assert!(str_eq("abc", "abc"));
    assert!(!str_eq("abc", "abd"));
    assert!(!str_eq("abc", "ab"));
}
