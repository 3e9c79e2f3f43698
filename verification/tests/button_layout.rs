use pop_desktop_widget::button_layout::{button_layout_key, layout_value, switches_for_layout, ButtonLayout};

#[test]
fn layout_values_for_each_switch_state() {
    assert_eq!(layout_value(false, false), "appmenu:close");
    assert_eq!(layout_value(false, true), "appmenu:maximize,close");
    assert_eq!(layout_value(true, false), "appmenu:minimize,close");
    assert_eq!(layout_value(true, true), "appmenu:minimize,maximize,close");
}

#[test]
fn switches_read_from_layout() {
    assert_eq!(switches_for_layout("appmenu:close"), (false, false));
    assert_eq!(switches_for_layout("close,minimize:appmenu"), (true, false));
    assert_eq!(switches_for_layout(":minimize,maximize,close"), (true, true));
    assert_eq!(switches_for_layout("maximize"), (false, true));
    assert_eq!(switches_for_layout(""), (false, false));
    assert_eq!(switches_for_layout("minimiz"), (false, false));
}

#[test]
fn layout_round_trip_on_every_state() {
    for min in [false, true] {
        for max in [false, true] {
            assert_eq!(switches_for_layout(layout_value(min, max)), (min, max));
        }
    }
}

#[test]
fn update_writes_current_switches() {
    let mut layout = ButtonLayout { switch_min: true, switch_max: false };
    let written = layout.update(true, "ignored");
    assert_eq!(written, Some("appmenu:minimize,close"));
    assert!(layout.switch_min);
    assert!(!layout.switch_max);
}

#[test]
fn update_reads_switches_from_value() {
    let mut layout = ButtonLayout { switch_min: false, switch_max: false };
    let written = layout.update(false, "appmenu:minimize,maximize,close");
    assert_eq!(written, None);
    assert!(layout.switch_min);
    assert!(layout.switch_max);
}

#[test]
fn settings_change_of_other_key_is_ignored() {
    let mut layout = ButtonLayout { switch_min: true, switch_max: true };
    layout.settings_changed("theme", "appmenu:close");
    assert!(layout.switch_min && layout.switch_max);
    layout.settings_changed(button_layout_key(), "appmenu:close");
    assert!(!layout.switch_min && !layout.switch_max);
}
