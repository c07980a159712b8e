use launcher::{decimal_string, HostError, HostErrorKind, LauncherError};

fn read_failed_fields(e: &LauncherError) -> (String, String) {
    match e {
        LauncherError::FileReadFailed { path, details } => (path.clone(), details.clone()),
        other => panic!("expected FileReadFailed, got {:?}", other),
    }
}

#[test]
fn render_read_failed() {
    let e = LauncherError::FileReadFailed { path: "a".to_string(), details: "b".to_string() };
    assert_eq!(e.render(), "Failed to read file a: b");
}

#[test]
fn render_is_the_same_twice() {
    let a = LauncherError::FileReadFailed { path: "a".to_string(), details: "b".to_string() };
    let b = LauncherError::FileReadFailed { path: "a".to_string(), details: "b".to_string() };
    assert_eq!(a.render(), b.render());
    assert_eq!(a.render(), a.render());
}

#[test]
fn render_write_failed() {
    let e = LauncherError::FileWriteFailed {
        path: "/tmp/out.txt".to_string(),
        details: "disk full".to_string(),
    };
    assert_eq!(e.render(), "Failed to write file /tmp/out.txt: disk full");
}

#[test]
fn render_empty_fields() {
    let e = LauncherError::FileWriteFailed { path: String::new(), details: String::new() };
    assert_eq!(e.render(), "Failed to write file : ");
}

#[test]
fn render_clipboard_failed() {
    assert_eq!(LauncherError::ClipboardFailed.render(), "Clipboard operation failed");
}

#[test]
fn host_not_found_keeps_text() {
    let e = LauncherError::from_host_error(HostError {
        kind: HostErrorKind::NotFound,
        message: "No such file or directory".to_string(),
    });
    let (path, details) = read_failed_fields(&e);
    assert_eq!(path, "unknown");
    assert_eq!(details, "No such file or directory");
    let shown = e.render();
    assert_eq!(shown, "Failed to read file unknown: No such file or directory");
    assert!(shown.contains("unknown"));
    assert!(shown.contains("No such file or directory"));
}

#[test]
fn host_permission_denied_is_prefixed() {
    let e = LauncherError::from_host_error(HostError {
        kind: HostErrorKind::PermissionDenied,
        message: "access refused".to_string(),
    });
    let (path, details) = read_failed_fields(&e);
    assert_eq!(path, "unknown");
    assert_eq!(details, "Permission denied: access refused");
    assert!(details.contains("Permission denied:"));
}

#[test]
fn host_other_keeps_text() {
    let e = LauncherError::from_host_error(HostError {
        kind: HostErrorKind::Other,
        message: "broken pipe".to_string(),
    });
    let (path, details) = read_failed_fields(&e);
    assert_eq!(path, "unknown");
    assert_eq!(details, "broken pipe");
}

#[test]
fn host_empty_message() {
    let e = LauncherError::from_host_error(HostError {
        kind: HostErrorKind::PermissionDenied,
        message: String::new(),
    });
    assert_eq!(read_failed_fields(&e).1, "Permission denied: ");
}

#[test]
fn io_not_found_converts() {
    let io = std::io::Error::new(std::io::ErrorKind::NotFound, "config.json is missing");
    let e = LauncherError::from(io);
    let (path, details) = read_failed_fields(&e);
    assert_eq!(path, "unknown");
    assert_eq!(details, "config.json is missing");
    let shown = e.render();
    assert!(shown.contains("unknown"));
    assert!(shown.contains("config.json is missing"));
}

#[test]
fn io_permission_denied_converts() {
    let io = std::io::Error::new(std::io::ErrorKind::PermissionDenied, "locked");
    let e = LauncherError::from(io);
    let (_, details) = read_failed_fields(&e);
    assert_eq!(details, "Permission denied: locked");
    assert!(e.render().contains("Permission denied:"));
}

#[test]
fn io_other_kind_converts() {
    let io = std::io::Error::new(std::io::ErrorKind::TimedOut, "too slow");
    let e = LauncherError::from(io);
    let (path, details) = read_failed_fields(&e);
    assert_eq!(path, "unknown");
    assert_eq!(details, "too slow");
}

#[test]
fn decimal_values() {
    assert_eq!(decimal_string(0), "0");
    assert_eq!(decimal_string(7), "7");
    assert_eq!(decimal_string(10), "10");
    assert_eq!(decimal_string(305), "305");
    assert_eq!(decimal_string(usize::MAX), usize::MAX.to_string());
}
