use std::collections::HashSet;

use mactemp::autostart::{enable_plan, is_enabled, plist_content, plist_path, toggle};

const EXPECTED_PLIST: &str = "<?xml version=\"1.0\" encoding=\"UTF-8\"?>
<!DOCTYPE plist PUBLIC \"-//Apple//DTD PLIST 1.0//EN\" \"http://www.apple.com/DTDs/PropertyList-1.0.dtd\">
<plist version=\"1.0\">
<dict>
    <key>Label</key>
    <string>com.mactemp.monitor</string>
    <key>ProgramArguments</key>
    <array>
        <string>/Applications/mactemp.app/Contents/MacOS/mactemp</string>
    </array>
    <key>RunAtLoad</key>
    <true/>
    <key>KeepAlive</key>
    <false/>
    <key>ProcessType</key>
    <string>Interactive</string>
</dict>
</plist>";

#[test]
fn plist_path_under_home() {
    assert_eq!(
        plist_path(Some("/Users/alice")),
        Some("/Users/alice/Library/LaunchAgents/com.mactemp.monitor.plist".to_string())
    );
}

#[test]
fn plist_path_home_with_trailing_slash() {
    assert_eq!(
        plist_path(Some("/Users/alice/")),
        Some("/Users/alice/Library/LaunchAgents/com.mactemp.monitor.plist".to_string())
    );
}

#[test]
fn plist_path_root_and_empty_home() {
    assert_eq!(
        plist_path(Some("/")),
        Some("/Library/LaunchAgents/com.mactemp.monitor.plist".to_string())
    );
    assert_eq!(
        plist_path(Some("")),
        Some("Library/LaunchAgents/com.mactemp.monitor.plist".to_string())
    );
}

#[test]
fn plist_path_without_home() {
    assert_eq!(plist_path(None), None);
}

#[test]
fn plist_path_agrees_with_std_path_join() {
    for home in ["/Users/bob", "/Users/bob/", "/", "", "relative/home", "/a//"] {
        let expected = std::path::PathBuf::from(home)
            .join("Library")
            .join("LaunchAgents")
            .join("com.mactemp.monitor.plist");
        assert_eq!(plist_path(Some(home)), Some(expected.to_string_lossy().to_string()));
    }
}

#[test]
fn plist_content_is_the_launch_agent() {
    assert_eq!(
        plist_content("/Applications/mactemp.app/Contents/MacOS/mactemp"),
        EXPECTED_PLIST
    );
}

#[test]
fn plist_content_keeps_path_unescaped() {
    let content = plist_content("/tmp/a&b<c>");
    assert!(content.contains("        <string>/tmp/a&b<c></string>\n"));
}

#[test]
fn enable_plan_needs_home_and_binary() {
    assert!(enable_plan(None, Some("/bin/mactemp")).is_none());
    assert!(enable_plan(Some("/Users/alice"), None).is_none());
    assert!(enable_plan(None, None).is_none());
}

#[test]
fn enable_plan_writes_plist_in_launch_agents() {
    let plan = enable_plan(
        Some("/Users/alice"),
        Some("/Applications/mactemp.app/Contents/MacOS/mactemp"),
    )
    .unwrap();
    assert_eq!(plan.dir, "/Users/alice/Library/LaunchAgents");
    assert_eq!(plan.path, "/Users/alice/Library/LaunchAgents/com.mactemp.monitor.plist");
    assert_eq!(plan.content, EXPECTED_PLIST);
    assert_eq!(
        std::path::Path::new(&plan.path).parent().unwrap(),
        std::path::Path::new(&plan.dir)
    );
}

#[test]
fn is_enabled_only_when_plist_exists() {
    assert!(is_enabled(Some(true)));
    assert!(!is_enabled(Some(false)));
    assert!(!is_enabled(None));
}

#[test]
fn toggle_returns_new_state() {
    assert!(!toggle(true, true));
    assert!(toggle(false, true));
}

#[test]
fn toggle_that_fails_keeps_state() {
    assert!(toggle(true, false));
    assert!(!toggle(false, false));
}

/// Carries out a toggle on a set of file paths, as the app does on disk.
fn toggle_on(files: &mut HashSet<String>, home: Option<&str>, binary: Option<&str>) -> bool {
    let enabled = is_enabled(plist_path(home).map(|p| files.contains(&p)));
    let applied = if enabled {
        match plist_path(home) {
            Some(path) => files.remove(&path),
            None => false,
        }
    } else {
        match enable_plan(home, binary) {
            Some(plan) => {
                files.insert(plan.path);
                true
            }
            None => false,
        }
    };
    toggle(enabled, applied)
}

#[test]
fn toggle_leaves_reported_state_and_twice_restores() {
    let home = Some("/Users/alice");
    let binary = Some("/bin/mactemp");
    let mut files: HashSet<String> = HashSet::new();
    files.insert("/Users/alice/notes.txt".to_string());

    assert!(toggle_on(&mut files, home, binary));
    assert!(is_enabled(plist_path(home).map(|p| files.contains(&p))));
    assert!(!toggle_on(&mut files, home, binary));
    assert!(!is_enabled(plist_path(home).map(|p| files.contains(&p))));
    assert_eq!(files.len(), 1);
    assert!(files.contains("/Users/alice/notes.txt"));
}

#[test]
fn toggle_without_home_reports_disabled_and_changes_nothing() {
    let mut files: HashSet<String> = HashSet::new();
    assert!(!toggle_on(&mut files, None, Some("/bin/mactemp")));
    assert!(files.is_empty());
    assert!(!is_enabled(plist_path(None).map(|p| files.contains(&p))));
}

#[test]
fn toggle_without_binary_path_stays_disabled() {
    let home = Some("/Users/alice");
    let mut files: HashSet<String> = HashSet::new();
    assert!(!toggle_on(&mut files, home, None));
    assert!(files.is_empty());
}
