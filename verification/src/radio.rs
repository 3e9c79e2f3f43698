//! Groups of radio buttons bound to one settings key: each radio stands for
//! one stored value; a stored value that no radio stands for selects the
//! group's "custom" radio, where it has one.
use vstd::prelude::*;
use crate::dock::{pixels_spec, size_pixels, IconSize};
use crate::text::same_text;

verus! {

/// A value stored under a settings key.
pub enum SettingValue {
    Text(String),
    Int(i32),
    Flag(bool),
    /// A value of any other type, held as its type and printed form; two
    /// such values are equal where these texts are.
    Other(String),
}

/// The mathematical content of a [`SettingValue`].
pub enum SettingValueView {
    Text(Seq<char>),
    Int(i32),
    Flag(bool),
    Other(Seq<char>),
}

impl View for SettingValue {
    type V = SettingValueView;

    open spec fn view(&self) -> SettingValueView {
        match self {
            SettingValue::Text(s) => SettingValueView::Text(s@),
            SettingValue::Int(i) => SettingValueView::Int(*i),
            SettingValue::Flag(b) => SettingValueView::Flag(*b),
            SettingValue::Other(s) => SettingValueView::Other(s@),
        }
    }
}

impl SettingValue {
    /// Whether two stored values are equal (same type and same content).
    pub fn same_value(&self, other: &SettingValue) -> (r: bool)
        ensures
            r == (self@ == other@),
    {
        match (self, other) {
            (SettingValue::Text(a), SettingValue::Text(b)) => same_text(a.as_str(), b.as_str()),
            (SettingValue::Int(a), SettingValue::Int(b)) => *a == *b,
            (SettingValue::Flag(a), SettingValue::Flag(b)) => *a == *b,
            (SettingValue::Other(a), SettingValue::Other(b)) => same_text(a.as_str(), b.as_str()),
            _ => false,
        }
    }

    /// A copy of the value.
    pub fn duplicate(&self) -> (r: SettingValue)
        ensures
            r@ == self@,
    {
        match self {
            SettingValue::Text(s) => SettingValue::Text(s.clone()),
            SettingValue::Int(i) => SettingValue::Int(*i),
            SettingValue::Flag(b) => SettingValue::Flag(*b),
            SettingValue::Other(s) => SettingValue::Other(s.clone()),
        }
    }
}

/// The views of a list of values.
pub open spec fn views(values: Seq<SettingValue>) -> Seq<SettingValueView> {
    values.map_values(|v: SettingValue| v@)
}

/// Which radio of a group a stored value selects.
pub enum RadioChoice {
    /// The radio with this index.
    Preset(usize),
    /// The group's custom radio.
    Custom,
    /// No radio: the group has no custom radio and no radio stands for the value.
    Unchanged,
}

/// `i` is the first index of `values` equal to `value`.
pub open spec fn is_first_match(values: Seq<SettingValueView>, value: SettingValueView, i: int) -> bool {
    &&& 0 <= i < values.len()
    &&& values[i] == value
    &&& forall|j: int| 0 <= j < i ==> values[j] != value
}

/// The radio that a stored value selects in a group whose radios stand for
/// `values`.
pub open spec fn choice_spec(values: Seq<SettingValueView>, value: SettingValueView, has_custom: bool) -> RadioChoice {
    if values.contains(value) {
        RadioChoice::Preset((choose|i: int| is_first_match(values, value, i)) as usize)
    } else if has_custom {
        RadioChoice::Custom
    } else {
        RadioChoice::Unchanged
    }
}

/// A group of radio buttons bound to the settings key `key`: radio `i`
/// stands for `presets[i]`.
pub struct RadioGroup {
    pub key: String,
    pub presets: Vec<SettingValue>,
    pub has_custom: bool,
}

/// The first match is unique.
pub proof fn lemma_first_match_unique(values: Seq<SettingValueView>, value: SettingValueView, i: int)
    requires
        is_first_match(values, value, i),
    ensures
        (choose|k: int| is_first_match(values, value, k)) == i,
{
    let k = choose|k: int| is_first_match(values, value, k);
    assert(is_first_match(values, value, k));
    if k < i {
        assert(values[k] != value);
    }
    if i < k {
        assert(values[i] != value);
    }
}

impl RadioGroup {
    /// The radio that the stored `value` selects.
    pub fn choice_for(&self, value: &SettingValue) -> (r: RadioChoice)
        ensures
            r == choice_spec(views(self.presets@), value@, self.has_custom),
    {
        let ghost vs = views(self.presets@);
        let mut i: usize = 0;
        while i < self.presets.len()
            invariant
                vs == views(self.presets@),
                i <= self.presets.len(),
                forall|j: int| 0 <= j < i ==> vs[j] != value@,
            decreases self.presets.len() - i,
        {
            if self.presets[i].same_value(value) {
                proof {
                    assert(is_first_match(vs, value@, i as int));
                    lemma_first_match_unique(vs, value@, i as int);
                }
                return RadioChoice::Preset(i);
            }
            i = i + 1;
        }
        if self.has_custom {
            RadioChoice::Custom
        } else {
            RadioChoice::Unchanged
        }
    }

    /// Handles a change notification of the settings object: a change of the
    /// group's key selects the radio for the new `value`; any other key
    /// leaves the radios as they are.
    pub fn settings_changed(&self, event_key: &str, value: &SettingValue) -> (r: RadioChoice)
        ensures
            event_key@ == self.key@ ==> r == choice_spec(views(self.presets@), value@, self.has_custom),
            event_key@ != self.key@ ==> r == RadioChoice::Unchanged,
    {
        if same_text(event_key, self.key.as_str()) {
            self.choice_for(value)
        } else {
            RadioChoice::Unchanged
        }
    }

    /// The value to store when radio `index` is toggled: the radio's value
    /// where it became active, nothing where it became inactive.
    pub fn radio_toggled(&self, index: usize, active: bool) -> (r: Option<SettingValue>)
        requires
            index < self.presets.len(),
        ensures
            active ==> (r matches Some(v) && v@ == self.presets@[index as int]@),
            !active ==> r is None,
    {
        if active {
            Some(self.presets[index].duplicate())
        } else {
            None
        }
    }
}

/// In a group whose radios stand for distinct values, storing the value of
/// radio `i` and reading it back selects radio `i` again.
pub proof fn lemma_radio_round_trip(values: Seq<SettingValueView>, i: int, has_custom: bool)
    requires
        values.no_duplicates(),
        0 <= i < values.len(),
    ensures
        choice_spec(values, values[i], has_custom) == RadioChoice::Preset(i as usize),
{
    assert(is_first_match(values, values[i], i));
    lemma_first_match_unique(values, values[i], i);
}

/// A stored value that no radio stands for selects the custom radio where
/// the group has one, and no radio otherwise.
pub proof fn lemma_unknown_value(values: Seq<SettingValueView>, value: SettingValueView, has_custom: bool)
    requires
        !values.contains(value),
    ensures
        has_custom ==> choice_spec(values, value, has_custom) == RadioChoice::Custom,
        !has_custom ==> choice_spec(values, value, has_custom) == RadioChoice::Unchanged,
{
}

/// What the Super key does: the radios for the launcher, the workspaces overview and the applications grid.
pub fn super_key_group() -> (g: RadioGroup)
    ensures
        g.key@ == "overlay-key-action"@,
        views(g.presets@) == seq![SettingValueView::Text("LAUNCHER"@), SettingValueView::Text("WORKSPACES"@), SettingValueView::Text("APPLICATIONS"@)],
        g.has_custom == false,
{
    let mut presets: Vec<SettingValue> = Vec::new();
    presets.push(SettingValue::Text(String::from_str("LAUNCHER")));
    presets.push(SettingValue::Text(String::from_str("WORKSPACES")));
    presets.push(SettingValue::Text(String::from_str("APPLICATIONS")));
    let g = RadioGroup { key: String::from_str("overlay-key-action"), presets, has_custom: false };
    assert(views(g.presets@) =~= seq![SettingValueView::Text("LAUNCHER"@), SettingValueView::Text("WORKSPACES"@), SettingValueView::Text("APPLICATIONS"@)]);
    g
}

/// The dock's icon size: small, medium and large radios, standing for the
/// pixel sizes of the three presets, and a custom radio for any other size.
pub fn dock_size_group() -> (g: RadioGroup)
    ensures
        g.key@ == "dash-max-icon-size"@,
        views(g.presets@) == seq![
            SettingValueView::Int(pixels_spec(IconSize::Small)),
            SettingValueView::Int(pixels_spec(IconSize::Medium)),
            SettingValueView::Int(pixels_spec(IconSize::Large)),
        ],
        views(g.presets@) == seq![SettingValueView::Int(36), SettingValueView::Int(48), SettingValueView::Int(60)],
        g.has_custom == true,
{
    let mut presets: Vec<SettingValue> = Vec::new();
    presets.push(SettingValue::Int(size_pixels(IconSize::Small)));
    presets.push(SettingValue::Int(size_pixels(IconSize::Medium)));
    presets.push(SettingValue::Int(size_pixels(IconSize::Large)));
    let g = RadioGroup { key: String::from_str("dash-max-icon-size"), presets, has_custom: true };
    assert(views(g.presets@) =~= seq![SettingValueView::Int(36), SettingValueView::Int(48), SettingValueView::Int(60)]);
    g
}

/// The dock's position: bottom, left and right radios.
pub fn dock_position_group() -> (g: RadioGroup)
    ensures
        g.key@ == "dock-position"@,
        views(g.presets@) == seq![SettingValueView::Text("BOTTOM"@), SettingValueView::Text("LEFT"@), SettingValueView::Text("RIGHT"@)],
        g.has_custom == false,
{
    let mut presets: Vec<SettingValue> = Vec::new();
    presets.push(SettingValue::Text(String::from_str("BOTTOM")));
    presets.push(SettingValue::Text(String::from_str("LEFT")));
    presets.push(SettingValue::Text(String::from_str("RIGHT")));
    let g = RadioGroup { key: String::from_str("dock-position"), presets, has_custom: false };
    assert(views(g.presets@) =~= seq![SettingValueView::Text("BOTTOM"@), SettingValueView::Text("LEFT"@), SettingValueView::Text("RIGHT"@)]);
    g
}

/// The dock's alignment: center, start and end radios.
pub fn dock_alignment_group() -> (g: RadioGroup)
    ensures
        g.key@ == "dock-alignment"@,
        views(g.presets@) == seq![SettingValueView::Text("CENTER"@), SettingValueView::Text("START"@), SettingValueView::Text("END"@)],
        g.has_custom == false,
{
    let mut presets: Vec<SettingValue> = Vec::new();
    presets.push(SettingValue::Text(String::from_str("CENTER")));
    presets.push(SettingValue::Text(String::from_str("START")));
    presets.push(SettingValue::Text(String::from_str("END")));
    let g = RadioGroup { key: String::from_str("dock-alignment"), presets, has_custom: false };
    assert(views(g.presets@) =~= seq![SettingValueView::Text("CENTER"@), SettingValueView::Text("START"@), SettingValueView::Text("END"@)]);
    g
}

/// Workspaces on several displays: a radio for spanning all displays and one for the primary display only.
pub fn workspaces_multi_monitor_group() -> (g: RadioGroup)
    ensures
        g.key@ == "workspaces-only-on-primary"@,
        views(g.presets@) == seq![SettingValueView::Flag(false), SettingValueView::Flag(true)],
        g.has_custom == false,
{
    let mut presets: Vec<SettingValue> = Vec::new();
    presets.push(SettingValue::Flag(false));
    presets.push(SettingValue::Flag(true));
    let g = RadioGroup { key: String::from_str("workspaces-only-on-primary"), presets, has_custom: false };
    assert(views(g.presets@) =~= seq![SettingValueView::Flag(false), SettingValueView::Flag(true)]);
    g
}

/// The workspace picker's side: a radio for the right and one for the left.
pub fn workspace_picker_group() -> (g: RadioGroup)
    ensures
        g.key@ == "workspace-picker-left"@,
        views(g.presets@) == seq![SettingValueView::Flag(false), SettingValueView::Flag(true)],
        g.has_custom == false,
{
    let mut presets: Vec<SettingValue> = Vec::new();
    presets.push(SettingValue::Flag(false));
    presets.push(SettingValue::Flag(true));
    let g = RadioGroup { key: String::from_str("workspace-picker-left"), presets, has_custom: false };
    assert(views(g.presets@) =~= seq![SettingValueView::Flag(false), SettingValueView::Flag(true)]);
    g
}

/// The radios of every group stand for distinct values, so that each
/// group's radios round-trip through the stored value.
pub proof fn lemma_group_values_distinct()
    ensures
        seq![SettingValueView::Text("LAUNCHER"@), SettingValueView::Text("WORKSPACES"@), SettingValueView::Text("APPLICATIONS"@)].no_duplicates(),
        seq![SettingValueView::Int(36), SettingValueView::Int(48), SettingValueView::Int(60)].no_duplicates(),
        seq![SettingValueView::Text("BOTTOM"@), SettingValueView::Text("LEFT"@), SettingValueView::Text("RIGHT"@)].no_duplicates(),
        seq![SettingValueView::Text("CENTER"@), SettingValueView::Text("START"@), SettingValueView::Text("END"@)].no_duplicates(),
        seq![SettingValueView::Flag(false), SettingValueView::Flag(true)].no_duplicates(),
{
    reveal_strlit("LAUNCHER");
    reveal_strlit("WORKSPACES");
    reveal_strlit("APPLICATIONS");
    reveal_strlit("BOTTOM");
    reveal_strlit("LEFT");
    reveal_strlit("RIGHT");
    reveal_strlit("CENTER");
    reveal_strlit("START");
    reveal_strlit("END");
    assert("LAUNCHER"@.len() != "WORKSPACES"@.len());
    assert("LAUNCHER"@.len() != "APPLICATIONS"@.len());
    assert("WORKSPACES"@.len() != "APPLICATIONS"@.len());
    assert("BOTTOM"@.len() != "LEFT"@.len());
    assert("BOTTOM"@.len() != "RIGHT"@.len());
    assert("LEFT"@[0] != "RIGHT"@[0]);
    assert("CENTER"@.len() != "START"@.len());
    assert("CENTER"@.len() != "END"@.len());
    assert("START"@.len() != "END"@.len());
}

} // verus!
