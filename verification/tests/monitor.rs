use automation_core::errors::Error;
use automation_core::monitor::{find_monitor, resolve_monitor, Monitor};

fn snapshot() -> Vec<Monitor> {
    vec![
        Monitor {
            id: "101".to_string(),
            is_primary: true,
            name: "built-in".to_string(),
            width: 2560,
            height: 1440,
            x: 0,
            y: 0,
        },
        Monitor {
            id: "202".to_string(),
            is_primary: false,
            name: "external".to_string(),
            width: 1920,
            height: 1080,
            x: 2560,
            y: -120,
        },
    ]
}

#[test]
fn resolve_finds_the_matching_monitor() {
    let m = resolve_monitor(snapshot(), "202").unwrap();
    assert_eq!(m.id, "202");
    assert_eq!(m.name, "external");
    assert_eq!((m.x, m.y), (2560, -120));
    assert_eq!((m.width, m.height), (1920, 1080));
    assert!(!m.is_primary);
}

#[test]
fn resolve_unknown_id_fails_with_not_found() {
    let err = resolve_monitor(snapshot(), "999").unwrap_err();
    assert!(matches!(err, Error::NotFound));
    assert_eq!(err.message(), "Monitor not found");
}

#[test]
fn resolve_on_empty_snapshot_fails_with_not_found() {
    let err = resolve_monitor(Vec::new(), "101").unwrap_err();
    assert!(matches!(err, Error::NotFound));
}

#[test]
fn find_returns_the_first_match() {
    let monitors = snapshot();
    assert_eq!(find_monitor(&monitors, "101").unwrap(), 0);
    assert_eq!(find_monitor(&monitors, "202").unwrap(), 1);
    assert!(matches!(find_monitor(&monitors, ""), Err(Error::NotFound)));
}
