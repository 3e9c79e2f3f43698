//! The dock page and the dock step of the initial setup: which option each
//! group of controls shows for the settings of `dash-to-dock`, and what a
//! change of the controls writes.
use vstd::prelude::*;
use crate::text::{decimal, same_text};

verus! {

/// The dock's visibility options.
#[derive(PartialEq, Eq, Structural, Clone, Copy, Debug)]
pub enum DockVisibility {
    AlwaysVisible,
    AlwaysHide,
    IntelligentlyHide,
}

/// The visibility option shown for the `dock-fixed` and `intellihide` keys.
pub open spec fn visibility_spec(dock_fixed: bool, intellihide: bool) -> DockVisibility {
    if dock_fixed {
        DockVisibility::AlwaysVisible
    } else if intellihide {
        DockVisibility::IntelligentlyHide
    } else {
        DockVisibility::AlwaysHide
    }
}

/// The values of `dock-fixed` and `intellihide` written for an option.
pub open spec fn visibility_settings_spec(v: DockVisibility) -> (bool, bool) {
    match v {
        DockVisibility::AlwaysVisible => (true, false),
        DockVisibility::AlwaysHide => (false, false),
        DockVisibility::IntelligentlyHide => (false, true),
    }
}

/// The visibility option shown for the `dock-fixed` and `intellihide` keys.
pub fn visibility_for(dock_fixed: bool, intellihide: bool) -> (v: DockVisibility)
    ensures
        v == visibility_spec(dock_fixed, intellihide),
{
    if dock_fixed {
        DockVisibility::AlwaysVisible
    } else if intellihide {
        DockVisibility::IntelligentlyHide
    } else {
        DockVisibility::AlwaysHide
    }
}

/// The values of `dock-fixed` and `intellihide` written when the radio of
/// option `v` is toggled: the two values where the radio became active,
/// nothing where it became inactive.
pub fn visibility_toggled(v: DockVisibility, active: bool) -> (r: Option<(bool, bool)>)
    ensures
        active ==> r == Some(visibility_settings_spec(v)),
        !active ==> r is None,
{
    if !active {
        return None;
    }
    match v {
        DockVisibility::AlwaysVisible => Some((true, false)),
        DockVisibility::AlwaysHide => Some((false, false)),
        DockVisibility::IntelligentlyHide => Some((false, true)),
    }
}

/// Whether a change of the settings key `key` refreshes the visibility radios.
pub fn visibility_key(key: &str) -> (r: bool)
    ensures
        r == (key@ == "dock-fixed"@ || key@ == "intellihide"@),
{
    same_text(key, "dock-fixed") || same_text(key, "intellihide")
}

/// Storing the values of an option and reading them back shows that option.
pub proof fn lemma_visibility_round_trip(v: DockVisibility)
    ensures
        visibility_spec(visibility_settings_spec(v).0, visibility_settings_spec(v).1) == v,
{
}

/// Reading an option from the settings and storing it gives back the same
/// settings, unless both keys were set (then the dock is always visible and
/// `intellihide` is cleared).
pub proof fn lemma_visibility_settings_stable(dock_fixed: bool, intellihide: bool)
    ensures
        !(dock_fixed && intellihide) ==> visibility_settings_spec(visibility_spec(dock_fixed, intellihide))
            == (dock_fixed, intellihide),
        dock_fixed && intellihide ==> visibility_settings_spec(visibility_spec(dock_fixed, intellihide))
            == (true, false),
{
}

/// The options of the dock step of the initial setup.
#[derive(PartialEq, Eq, Structural, Clone, Copy, Debug)]
pub enum DockStyle {
    NoDock,
    Extended,
    Dynamic,
}

/// The option shown for the `manualhide` and `extend-height` keys.
pub open spec fn style_spec(manualhide: bool, extend_height: bool) -> DockStyle {
    if manualhide {
        DockStyle::NoDock
    } else if extend_height {
        DockStyle::Extended
    } else {
        DockStyle::Dynamic
    }
}

/// The option shown for the `manualhide` and `extend-height` keys.
pub fn style_for(manualhide: bool, extend_height: bool) -> (s: DockStyle)
    ensures
        s == style_spec(manualhide, extend_height),
{
    if manualhide {
        DockStyle::NoDock
    } else if extend_height {
        DockStyle::Extended
    } else {
        DockStyle::Dynamic
    }
}

/// The `click-action` value for an entry of the click-action combo box.
pub open spec fn click_action_spec(selection: i32) -> Seq<char> {
    if selection == 1 {
        "minimize"@
    } else if selection == 2 {
        "minimize-or-previews"@
    } else {
        "cycle-windows"@
    }
}

/// The combo-box entry shown for a `click-action` value.
pub open spec fn click_selection_spec(setting: Seq<char>) -> u32 {
    if setting == "minimize"@ {
        1
    } else if setting == "minimize-or-previews"@ {
        2
    } else {
        0
    }
}

/// The three `click-action` values differ from each other.
pub proof fn lemma_click_actions_distinct()
    ensures
        "minimize"@ != "minimize-or-previews"@,
        "cycle-windows"@ != "minimize"@,
        "cycle-windows"@ != "minimize-or-previews"@,
{
    reveal_strlit("minimize");
    reveal_strlit("minimize-or-previews");
    reveal_strlit("cycle-windows");
    assert("minimize"@.len() != "minimize-or-previews"@.len());
    assert("cycle-windows"@.len() != "minimize"@.len());
    assert("cycle-windows"@.len() != "minimize-or-previews"@.len());
}

/// The `click-action` value for an entry of the click-action combo box;
/// unknown entries stand for the first.
pub fn click_action_for_selection(selection: i32) -> (s: &'static str)
    ensures
        s@ == click_action_spec(selection),
{
    match selection {
        0 => "cycle-windows",
        1 => "minimize",
        2 => "minimize-or-previews",
        _ => "cycle-windows",
    }
}

/// The combo-box entry shown for a `click-action` value; unknown values show
/// the first entry.
pub fn selection_for_click_action(setting: &str) -> (r: u32)
    ensures
        r == click_selection_spec(setting@),
{
    proof {
        lemma_click_actions_distinct();
    }
    if same_text(setting, "cycle-windows") {
        0
    } else if same_text(setting, "minimize") {
        1
    } else if same_text(setting, "minimize-or-previews") {
        2
    } else {
        0
    }
}

/// The `click-action` value written when the combo box shows entry `active`
/// (none shown counts as the first entry).
pub fn click_action_for_combo(active: Option<u32>) -> (s: &'static str)
    ensures
        s@ == click_action_spec(
            match active {
                Some(a) => a as i32,
                None => 0i32,
            },
        ),
{
    let selection: i32 = match active {
        Some(a) => a as i32,
        None => 0,
    };
    click_action_for_selection(selection)
}

/// Choosing an entry of the click-action combo box, storing it and reading
/// it back shows the same entry.
pub proof fn lemma_click_action_round_trip(selection: i32)
    requires
        0 <= selection < 3,
    ensures
        click_selection_spec(click_action_spec(selection)) == selection,
{
    lemma_click_actions_distinct();
}

/// A known `click-action` value, shown and written back, stays the same;
/// any other value is replaced by `cycle-windows` once the entry is written.
pub proof fn lemma_click_setting_round_trip(setting: Seq<char>)
    ensures
        (setting == "cycle-windows"@ || setting == "minimize"@ || setting == "minimize-or-previews"@)
            ==> click_action_spec(click_selection_spec(setting) as i32) == setting,
        !(setting == "cycle-windows"@ || setting == "minimize"@ || setting == "minimize-or-previews"@)
            ==> click_action_spec(click_selection_spec(setting) as i32) == "cycle-windows"@,
{
    lemma_click_actions_distinct();
}

/// The preset icon sizes of the dock.
#[derive(PartialEq, Eq, Structural, Clone, Copy, Debug)]
pub enum IconSize {
    Small,
    Medium,
    Large,
}

/// The size in pixels of a preset.
pub open spec fn pixels_spec(size: IconSize) -> i32 {
    match size {
        IconSize::Small => 36,
        IconSize::Medium => 48,
        IconSize::Large => 60,
    }
}

/// The suffix that names the size of a preset in its radio's label.
pub open spec fn size_suffix_spec(size: IconSize) -> Seq<char> {
    match size {
        IconSize::Small => " (36px)"@,
        IconSize::Medium => " (48px)"@,
        IconSize::Large => " (60px)"@,
    }
}

/// The size in pixels of a preset, the value stored in `dash-max-icon-size`.
pub fn size_pixels(size: IconSize) -> (p: i32)
    ensures
        p == pixels_spec(size),
{
    match size {
        IconSize::Small => 36,
        IconSize::Medium => 48,
        IconSize::Large => 60,
    }
}

/// The label of a preset's radio: the translated size name followed by the
/// size in pixels.
pub fn size_label(name: &str, size: IconSize) -> (s: String)
    ensures
        s@ == name@ + size_suffix_spec(size),
{
    let suffix = match size {
        IconSize::Small => " (36px)",
        IconSize::Medium => " (48px)",
        IconSize::Large => " (60px)",
    };
    let mut s = String::from_str(name);
    s.append(suffix);
    s
}

/// Whether the "show on display" combo box, showing the entry with id
/// `active_id`, asks for the dock on all displays (id `all`).
pub fn on_all_displays(active_id: Option<&str>, all: &str) -> (r: bool)
    ensures
        r == (match active_id {
            Some(id) => id@ == all@,
            None => false,
        }),
{
    match active_id {
        Some(id) => same_text(id, all),
        None => false,
    }
}

/// The id of the entry the "show on display" combo box shows for the
/// `multi-monitor` key: `all` where it is set, `primary` otherwise.
pub fn display_entry<'a>(multi_monitor: bool, primary: &'a str, all: &'a str) -> (r: &'a str)
    ensures
        r@ == (if multi_monitor { all@ } else { primary@ }),
{
    if multi_monitor {
        all
    } else {
        primary
    }
}

/// Whenever `manualhide` is set the dock step shows "no dock", whatever
/// `extend-height` holds; otherwise it shows "extended" exactly when
/// `extend-height` is set, and "dynamic" when it is not.
pub proof fn lemma_style_choice(manualhide: bool, extend_height: bool)
    ensures
        manualhide ==> style_spec(manualhide, extend_height) == DockStyle::NoDock,
        !manualhide ==> (style_spec(manualhide, extend_height) == DockStyle::Extended <==> extend_height),
        !manualhide ==> (style_spec(manualhide, extend_height) == DockStyle::Dynamic <==> !extend_height),
{
}

/// Whenever `dock-fixed` is set the dock is shown as always visible,
/// whatever `intellihide` holds; otherwise it is shown as intelligently
/// hidden exactly when `intellihide` is set, and as always hidden when not.
pub proof fn lemma_visibility_choice(dock_fixed: bool, intellihide: bool)
    ensures
        dock_fixed ==> visibility_spec(dock_fixed, intellihide) == DockVisibility::AlwaysVisible,
        !dock_fixed ==> (visibility_spec(dock_fixed, intellihide) == DockVisibility::IntelligentlyHide
            <==> intellihide),
        !dock_fixed ==> (visibility_spec(dock_fixed, intellihide) == DockVisibility::AlwaysHide <==> !intellihide),
{
}

/// Each preset's label names, in decimal, the pixel size the preset stores:
/// its suffix is " (", the size's digits, then "px)".
pub proof fn lemma_size_label_names_pixels(size: IconSize)
    ensures
        size_suffix_spec(size) == " ("@ + decimal(pixels_spec(size) as nat) + "px)"@,
{
    reveal_strlit(" (");
    reveal_strlit("px)");
    reveal_strlit(" (36px)");
    reveal_strlit(" (48px)");
    reveal_strlit(" (60px)");
    reveal_with_fuel(decimal, 3);
    assert(decimal(36) =~= seq!['3', '6']);
    assert(decimal(48) =~= seq!['4', '8']);
    assert(decimal(60) =~= seq!['6', '0']);
    assert(size_suffix_spec(size) =~= " ("@ + decimal(pixels_spec(size) as nat) + "px)"@);
}

/// The click-action combo box: entry 1 stores "minimize", entry 2
/// "minimize-or-previews", and every other entry "cycle-windows".
pub proof fn lemma_click_action_entries(selection: i32)
    ensures
        click_action_spec(selection) == "minimize"@ <==> selection == 1,
        click_action_spec(selection) == "minimize-or-previews"@ <==> selection == 2,
        click_action_spec(selection) == "cycle-windows"@ <==> (selection != 1 && selection != 2),
{
    lemma_click_actions_distinct();
}

/// A visibility option stores `dock-fixed` exactly for "always visible" and
/// `intellihide` exactly for "intelligently hide".
pub proof fn lemma_visibility_settings_written(v: DockVisibility)
    ensures
        visibility_settings_spec(v).0 <==> v == DockVisibility::AlwaysVisible,
        visibility_settings_spec(v).1 <==> v == DockVisibility::IntelligentlyHide,
{
}

} // verus!
