use pop_desktop_widget::radio::{
    dock_alignment_group, dock_position_group, dock_size_group, super_key_group, workspace_picker_group,
    workspaces_multi_monitor_group, RadioChoice, SettingValue,
};

fn text(s: &str) -> SettingValue {
    SettingValue::Text(s.to_string())
}

fn is_preset(c: RadioChoice, i: usize) -> bool {
    matches!(c, RadioChoice::Preset(j) if j == i)
}

#[test]
fn same_value_compares_type_and_content() {
    assert!(text("LEFT").same_value(&text("LEFT")));
    assert!(!text("LEFT").same_value(&text("RIGHT")));
    assert!(!SettingValue::Int(1).same_value(&SettingValue::Flag(true)));
    assert!(SettingValue::Int(48).same_value(&SettingValue::Int(48)));
    assert!(text("x").duplicate().same_value(&text("x")));
}

#[test]
fn super_key_choices() {
    let g = super_key_group();
    assert_eq!(g.key, "overlay-key-action");
    assert!(is_preset(g.choice_for(&text("LAUNCHER")), 0));
    assert!(is_preset(g.choice_for(&text("WORKSPACES")), 1));
    assert!(is_preset(g.choice_for(&text("APPLICATIONS")), 2));
    assert!(matches!(g.choice_for(&text("OTHER")), RadioChoice::Unchanged));
}

#[test]
fn dock_size_falls_back_to_custom() {
    let g = dock_size_group();
    assert_eq!(g.key, "dash-max-icon-size");
    assert!(is_preset(g.choice_for(&SettingValue::Int(48)), 1));
    assert!(matches!(g.choice_for(&SettingValue::Int(50)), RadioChoice::Custom));
}

#[test]
fn values_of_other_types() {
    let other = SettingValue::Other("as ['a']".to_string());
    assert!(other.same_value(&SettingValue::Other("as ['a']".to_string())));
    assert!(!other.same_value(&text("as ['a']")));
    assert!(matches!(dock_size_group().choice_for(&other), RadioChoice::Custom));
    assert!(matches!(dock_position_group().choice_for(&other), RadioChoice::Unchanged));
}

#[test]
fn other_groups() {
    assert!(is_preset(dock_position_group().choice_for(&text("RIGHT")), 2));
    assert!(is_preset(dock_alignment_group().choice_for(&text("START")), 1));
    assert!(is_preset(workspaces_multi_monitor_group().choice_for(&SettingValue::Flag(true)), 1));
    assert!(is_preset(workspace_picker_group().choice_for(&SettingValue::Flag(false)), 0));
    assert_eq!(workspace_picker_group().key, "workspace-picker-left");
    assert_eq!(workspaces_multi_monitor_group().key, "workspaces-only-on-primary");
}

#[test]
fn settings_changed_only_for_own_key() {
    let g = dock_position_group();
    assert!(is_preset(g.settings_changed("dock-position", &text("LEFT")), 1));
    assert!(matches!(g.settings_changed("dock-alignment", &text("LEFT")), RadioChoice::Unchanged));
}

#[test]
fn radio_toggle_writes_its_value() {
    let g = dock_size_group();
    let v = g.radio_toggled(2, true).unwrap();
    assert!(v.same_value(&SettingValue::Int(60)));
    assert!(g.radio_toggled(2, false).is_none());
}

#[test]
fn each_radio_round_trips() {
    for g in [super_key_group(), dock_size_group(), dock_position_group(), dock_alignment_group()] {
        for i in 0..g.presets.len() {
            let v = g.radio_toggled(i, true).unwrap();
            assert!(is_preset(g.choice_for(&v), i));
        }
    }
}
