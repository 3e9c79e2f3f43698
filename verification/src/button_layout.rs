//! The window-controls section: two switches (minimize, maximize) kept in
//! step with the `button-layout` key of `org.gnome.desktop.wm.preferences`.
use vstd::prelude::*;
use crate::text::{contains_text, occurs_at, same_text, text_contains};

verus! {

/// The layout value written for the given switch states.
pub open spec fn layout_spec(minimize: bool, maximize: bool) -> Seq<char> {
    if !minimize && !maximize {
        "appmenu:close"@
    } else if !minimize && maximize {
        "appmenu:maximize,close"@
    } else if minimize && !maximize {
        "appmenu:minimize,close"@
    } else {
        "appmenu:minimize,maximize,close"@
    }
}

/// The switch states shown for a stored layout value.
pub open spec fn switches_spec(value: Seq<char>) -> (bool, bool) {
    (text_contains(value, "minimize"@), text_contains(value, "maximize"@))
}

/// The settings key that holds the window button layout.
pub fn button_layout_key() -> (k: &'static str)
    ensures
        k@ == "button-layout"@,
{
    "button-layout"
}

/// The `button-layout` value that shows exactly the buttons switched on.
pub fn layout_value(minimize: bool, maximize: bool) -> (s: &'static str)
    ensures
        s@ == layout_spec(minimize, maximize),
{
    match (minimize, maximize) {
        (false, false) => "appmenu:close",
        (false, true) => "appmenu:maximize,close",
        (true, false) => "appmenu:minimize,close",
        (true, true) => "appmenu:minimize,maximize,close",
    }
}

/// Which of the two switches a stored layout value turns on.
pub fn switches_for_layout(value: &str) -> (r: (bool, bool))
    ensures
        r == switches_spec(value@),
{
    (contains_text(value, "minimize"), contains_text(value, "maximize"))
}

/// The state of the window-controls section: the two switches.
pub struct ButtonLayout {
    pub switch_min: bool,
    pub switch_max: bool,
}

impl ButtonLayout {
    /// Applies an update. With `write`, the switches are left as they are and
    /// the layout value for them is returned, to be stored under
    /// `button-layout`; without it, the switches take the state that `value`
    /// (the stored layout) shows and nothing is to be written.
    pub fn update(&mut self, write: bool, value: &str) -> (written: Option<&'static str>)
        ensures
            write ==> *final(self) == *old(self),
            write ==> (written matches Some(w) && w@ == layout_spec(old(self).switch_min, old(self).switch_max)),
            !write ==> written is None,
            !write ==> (final(self).switch_min, final(self).switch_max) == switches_spec(value@),
    {
        if write {
            Some(layout_value(self.switch_min, self.switch_max))
        } else {
            let (min, max) = switches_for_layout(value);
            self.switch_min = min;
            self.switch_max = max;
            None
        }
    }

    /// Handles a change notification of the settings object: only a change of
    /// `button-layout` refreshes the switches from the stored `value`.
    pub fn settings_changed(&mut self, event_key: &str, value: &str)
        ensures
            event_key@ == "button-layout"@ ==> (final(self).switch_min, final(self).switch_max)
                == switches_spec(value@),
            event_key@ != "button-layout"@ ==> *final(self) == *old(self),
    {
        if same_text(event_key, button_layout_key()) {
            let _ = self.update(false, value);
        }
    }
}

/// Writing the layout for a pair of switch states and reading it back gives
/// the same switch states: the section never fights its own writes.
pub proof fn lemma_layout_round_trip(minimize: bool, maximize: bool)
    ensures
        switches_spec(layout_spec(minimize, maximize)) == (minimize, maximize),
{
    reveal_strlit("appmenu:close");
    reveal_strlit("appmenu:maximize,close");
    reveal_strlit("appmenu:minimize,close");
    reveal_strlit("appmenu:minimize,maximize,close");
    reveal_strlit("minimize");
    reveal_strlit("maximize");
    let s = layout_spec(minimize, maximize);
    if minimize {
        assert(s.subrange(8, 16) =~= "minimize"@);
        assert(occurs_at(s, "minimize"@, 8));
    } else {
        assert forall|i: int| !occurs_at(s, "minimize"@, i) by {
            if occurs_at(s, "minimize"@, i) {
                assert(s.subrange(i, i + 8)[1] == 'i');
                assert(s.subrange(i, i + 8)[6] == 'z');
                assert(s[i + 1] == 'i');
                assert(s[i + 6] == 'z');
            }
        }
    }
    if maximize {
        if minimize {
            assert(s.subrange(17, 25) =~= "maximize"@);
            assert(occurs_at(s, "maximize"@, 17));
        } else {
            assert(s.subrange(8, 16) =~= "maximize"@);
            assert(occurs_at(s, "maximize"@, 8));
        }
    } else {
        assert forall|i: int| !occurs_at(s, "maximize"@, i) by {
            if occurs_at(s, "maximize"@, i) {
                assert(s.subrange(i, i + 8)[1] == 'a');
                assert(s.subrange(i, i + 8)[6] == 'z');
                assert(s[i + 1] == 'a');
                assert(s[i + 6] == 'z');
            }
        }
    }
}

/// For every stored layout value, the minimize switch shows whether the
/// text "minimize" occurs in it and the maximize switch whether "maximize"
/// occurs in it, wherever in the value that is.
pub proof fn lemma_switches_show_buttons(value: Seq<char>)
    ensures
        switches_spec(value).0 <==> exists|i: int|
            0 <= i && i + 8 <= value.len() && #[trigger] value.subrange(i, i + 8) == "minimize"@,
        switches_spec(value).1 <==> exists|i: int|
            0 <= i && i + 8 <= value.len() && #[trigger] value.subrange(i, i + 8) == "maximize"@,
{
    reveal_strlit("minimize");
    reveal_strlit("maximize");
    if switches_spec(value).0 {
        let i = choose|i: int| occurs_at(value, "minimize"@, i);
        assert(value.subrange(i, i + 8) == "minimize"@);
    }
    if exists|i: int| 0 <= i && i + 8 <= value.len() && #[trigger] value.subrange(i, i + 8) == "minimize"@ {
        let i = choose|i: int| 0 <= i && i + 8 <= value.len() && #[trigger] value.subrange(i, i + 8) == "minimize"@;
        assert(occurs_at(value, "minimize"@, i));
    }
    if switches_spec(value).1 {
        let i = choose|i: int| occurs_at(value, "maximize"@, i);
        assert(value.subrange(i, i + 8) == "maximize"@);
    }
    if exists|i: int| 0 <= i && i + 8 <= value.len() && #[trigger] value.subrange(i, i + 8) == "maximize"@ {
        let i = choose|i: int| 0 <= i && i + 8 <= value.len() && #[trigger] value.subrange(i, i + 8) == "maximize"@;
        assert(occurs_at(value, "maximize"@, i));
    }
}

/// The layout written for a pair of switch states is the application menu,
/// then the minimize button where it is switched on, then the maximize
/// button where it is switched on, then the close button, comma-separated.
pub proof fn lemma_layout_composition(minimize: bool, maximize: bool)
    ensures
        layout_spec(minimize, maximize) == "appmenu:"@ + (if minimize { "minimize,"@ } else { Seq::<char>::empty() })
            + (if maximize { "maximize,"@ } else { Seq::<char>::empty() }) + "close"@,
{
    reveal_strlit("appmenu:close");
    reveal_strlit("appmenu:maximize,close");
    reveal_strlit("appmenu:minimize,close");
    reveal_strlit("appmenu:minimize,maximize,close");
    reveal_strlit("appmenu:");
    reveal_strlit("minimize,");
    reveal_strlit("maximize,");
    reveal_strlit("close");
    assert(layout_spec(minimize, maximize) =~= "appmenu:"@ + (if minimize { "minimize,"@ } else { Seq::<char>::empty() })
        + (if maximize { "maximize,"@ } else { Seq::<char>::empty() }) + "close"@);
}

} // verus!
