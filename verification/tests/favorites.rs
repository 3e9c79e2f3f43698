use pop_desktop_widget::favorites::{
    applications_desktop, cosmic_favorites, first_other, is_cosmic_desktop, launcher_desktop, position_of,
    toggle_favorite, workspaces_desktop,
};

fn list(items: &[&str]) -> Vec<String> {
    items.iter().map(|s| s.to_string()).collect()
}

const L: &str = "pop-cosmic-launcher.desktop";
const W: &str = "pop-cosmic-workspaces.desktop";
const A: &str = "pop-cosmic-applications.desktop";

#[test]
fn entry_names() {
    assert_eq!(launcher_desktop(), L);
    assert_eq!(workspaces_desktop(), W);
    assert_eq!(applications_desktop(), A);
    assert!(is_cosmic_desktop(W));
    assert!(!is_cosmic_desktop("firefox.desktop"));
}

#[test]
fn flags_follow_favorites() {
    let f = cosmic_favorites(&list(&[L, "firefox.desktop", A]));
    assert!(f.launcher && !f.workspaces && f.applications);
    let f = cosmic_favorites(&list(&[]));
    assert!(!f.launcher && !f.workspaces && !f.applications);
}

#[test]
fn positions() {
    let favs = list(&[L, "a.desktop", W, "a.desktop"]);
    assert_eq!(position_of(&favs, "a.desktop"), Some(1));
    assert_eq!(position_of(&favs, A), None);
    assert_eq!(first_other(&favs), Some(1));
    assert_eq!(first_other(&list(&[L, W])), None);
}

#[test]
fn switch_on_inserts_before_other_apps() {
    let mut favs = list(&[L, "firefox.desktop", "files.desktop"]);
    toggle_favorite(&mut favs, A, 2, true);
    assert_eq!(favs, list(&[L, A, "firefox.desktop", "files.desktop"]));
}

#[test]
fn switch_on_inserts_at_pos_when_earlier() {
    let mut favs = list(&[W, A, "firefox.desktop"]);
    toggle_favorite(&mut favs, L, 0, true);
    assert_eq!(favs, list(&[L, W, A, "firefox.desktop"]));
}

#[test]
fn switch_on_with_only_cosmic_entries_uses_slot() {
    let mut favs = list(&[L]);
    toggle_favorite(&mut favs, W, 1, true);
    assert_eq!(favs, list(&[L, W]));
    let mut favs = list(&[W]);
    toggle_favorite(&mut favs, L, 0, true);
    assert_eq!(favs, list(&[L, W]));
    let mut favs = list(&[L]);
    toggle_favorite(&mut favs, A, 2, true);
    assert_eq!(favs, list(&[L, A]));
    let mut favs = list(&[]);
    toggle_favorite(&mut favs, A, 2, true);
    assert_eq!(favs, list(&[A]));
}

#[test]
fn switch_on_when_present_changes_nothing() {
    let mut favs = list(&["firefox.desktop", L]);
    toggle_favorite(&mut favs, L, 0, true);
    assert_eq!(favs, list(&["firefox.desktop", L]));
}

#[test]
fn switch_off_removes_first_occurrence() {
    let mut favs = list(&[L, W, "x.desktop", W]);
    toggle_favorite(&mut favs, W, 1, false);
    assert_eq!(favs, list(&[L, "x.desktop", W]));
    toggle_favorite(&mut favs, A, 2, false);
    assert_eq!(favs, list(&[L, "x.desktop", W]));
}

#[test]
fn toggling_updates_only_its_flag() {
    let mut favs = list(&[L, "firefox.desktop"]);
    toggle_favorite(&mut favs, W, 1, true);
    let f = cosmic_favorites(&favs);
    assert!(f.launcher && f.workspaces && !f.applications);
    toggle_favorite(&mut favs, L, 0, false);
    let f = cosmic_favorites(&favs);
    assert!(!f.launcher && f.workspaces && !f.applications);
}

#[test]
fn toggling_twice_is_toggling_once() {
    let mut once = list(&["firefox.desktop"]);
    toggle_favorite(&mut once, A, 2, true);
    let mut twice = once.clone();
    toggle_favorite(&mut twice, A, 2, true);
    assert_eq!(once, twice);
}
