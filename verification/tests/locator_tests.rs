use world_monitor::locator::{locate, runtime_candidates};
use world_monitor::platform::OsFamily;

fn dirs(list: &[&str]) -> Vec<String> {
    list.iter().map(|d| d.to_string()).collect()
}

#[test]
fn candidates_start_with_override_then_path_then_common() {
    let cands = runtime_candidates(
        OsFamily::OtherUnix,
        Some("/custom/node".to_string()),
        &dirs(&["/first/bin", "/second/bin"]),
    );
    let expected = vec![
        "/custom/node",
        "/first/bin/node",
        "/second/bin/node",
        "/opt/homebrew/bin/node",
        "/usr/local/bin/node",
        "/usr/bin/node",
        "/opt/local/bin/node",
    ];
    let got: Vec<&str> = cands.iter().map(|c| c.as_str()).collect();
    assert_eq!(got, expected);
}

#[test]
fn candidates_without_override_on_windows() {
    let cands = runtime_candidates(OsFamily::Windows, None, &dirs(&["C:\\tools"]));
    let expected = vec![
        "C:\\tools\\node.exe",
        "C:\\Program Files\\nodejs\\node.exe",
        "C:\\Program Files (x86)\\nodejs\\node.exe",
    ];
    let got: Vec<&str> = cands.iter().map(|c| c.as_str()).collect();
    assert_eq!(got, expected);
}

#[test]
fn missing_override_falls_through_to_path_scan() {
    let cands = runtime_candidates(
        OsFamily::OtherUnix,
        Some("/does/not/exist/node".to_string()),
        &dirs(&["/first/bin"]),
    );
    // The override's probe failed; the first search-path candidate exists.
    let present = vec![false, true, false, false, false, false];
    assert_eq!(cands.len(), present.len());
    let found = locate(&cands, &present);
    assert_eq!(found.as_deref(), Some("/first/bin/node"));
}

#[test]
fn second_path_dir_wins_when_first_lacks_binary() {
    let cands = runtime_candidates(
        OsFamily::OtherUnix,
        None,
        &dirs(&["/first/bin", "/second/bin"]),
    );
    let present = vec![false, true, false, false, false, false];
    assert_eq!(cands.len(), present.len());
    let found = locate(&cands, &present);
    assert_eq!(found.as_deref(), Some("/second/bin/node"));
}

#[test]
fn existing_override_wins_over_everything() {
    let cands = runtime_candidates(
        OsFamily::OtherUnix,
        Some("/custom/node".to_string()),
        &dirs(&["/first/bin"]),
    );
    let present = vec![true, true, true, true, true, true];
    let found = locate(&cands, &present);
    assert_eq!(found.as_deref(), Some("/custom/node"));
}

#[test]
fn nothing_found_is_absence_not_error() {
    let cands = runtime_candidates(OsFamily::OtherUnix, None, &dirs(&[]));
    let present = vec![false; cands.len()];
    assert!(locate(&cands, &present).is_none());
}

#[test]
fn common_location_found_last() {
    let cands = runtime_candidates(OsFamily::OtherUnix, None, &dirs(&[]));
    // Only MacPorts, the lowest-priority fixed location, has the binary.
    let present = vec![false, false, false, true];
    let found = locate(&cands, &present);
    assert_eq!(found.as_deref(), Some("/opt/local/bin/node"));
}
