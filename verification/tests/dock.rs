use pop_desktop_widget::dock::{
    click_action_for_combo, click_action_for_selection, display_entry, on_all_displays,
    selection_for_click_action, size_label, size_pixels, style_for, visibility_for, visibility_key,
    visibility_toggled, DockStyle, DockVisibility, IconSize,
};

#[test]
fn visibility_from_settings() {
    assert!(visibility_for(true, true) == DockVisibility::AlwaysVisible);
    assert!(visibility_for(true, false) == DockVisibility::AlwaysVisible);
    assert!(visibility_for(false, true) == DockVisibility::IntelligentlyHide);
    assert!(visibility_for(false, false) == DockVisibility::AlwaysHide);
}

#[test]
fn visibility_writes() {
    assert_eq!(visibility_toggled(DockVisibility::AlwaysVisible, true), Some((true, false)));
    assert_eq!(visibility_toggled(DockVisibility::IntelligentlyHide, true), Some((false, true)));
    assert_eq!(visibility_toggled(DockVisibility::AlwaysHide, true), Some((false, false)));
    assert_eq!(visibility_toggled(DockVisibility::AlwaysHide, false), None);
}

#[test]
fn visibility_round_trip() {
    for v in [DockVisibility::AlwaysVisible, DockVisibility::AlwaysHide, DockVisibility::IntelligentlyHide] {
        let (fixed, intelli) = visibility_toggled(v, true).unwrap();
        assert!(visibility_for(fixed, intelli) == v);
    }
}

#[test]
fn visibility_keys() {
    assert!(visibility_key("dock-fixed"));
    assert!(visibility_key("intellihide"));
    assert!(!visibility_key("dock-position"));
}

#[test]
fn dock_styles() {
    assert!(style_for(true, true) == DockStyle::NoDock);
    assert!(style_for(false, true) == DockStyle::Extended);
    assert!(style_for(false, false) == DockStyle::Dynamic);
}

#[test]
fn click_actions() {
    assert_eq!(click_action_for_selection(0), "cycle-windows");
    assert_eq!(click_action_for_selection(1), "minimize");
    assert_eq!(click_action_for_selection(2), "minimize-or-previews");
    assert_eq!(click_action_for_selection(7), "cycle-windows");
    assert_eq!(click_action_for_selection(-1), "cycle-windows");
    assert_eq!(selection_for_click_action("cycle-windows"), 0);
    assert_eq!(selection_for_click_action("minimize"), 1);
    assert_eq!(selection_for_click_action("minimize-or-previews"), 2);
    assert_eq!(selection_for_click_action("launch"), 0);
    assert_eq!(click_action_for_combo(None), "cycle-windows");
    assert_eq!(click_action_for_combo(Some(2)), "minimize-or-previews");
    assert_eq!(click_action_for_combo(Some(u32::MAX)), "cycle-windows");
}

#[test]
fn click_action_round_trip() {
    for i in 0..3 {
        assert_eq!(selection_for_click_action(click_action_for_selection(i)) as i32, i);
    }
}

#[test]
fn icon_sizes() {
    assert_eq!(size_pixels(IconSize::Small), 36);
    assert_eq!(size_pixels(IconSize::Medium), 48);
    assert_eq!(size_pixels(IconSize::Large), 60);
    assert_eq!(size_label("Small", IconSize::Small), "Small (36px)");
    assert_eq!(size_label("Large", IconSize::Large), "Large (60px)");
}

#[test]
fn displays() {
    assert!(on_all_displays(Some("All Displays"), "All Displays"));
    assert!(!on_all_displays(Some("Primary Display"), "All Displays"));
    assert!(!on_all_displays(None, "All Displays"));
    assert_eq!(display_entry(true, "p", "a"), "a");
    assert_eq!(display_entry(false, "p", "a"), "p");
}
