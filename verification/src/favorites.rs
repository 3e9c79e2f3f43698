//! The dock's launcher, workspaces and applications icons: three switches
//! kept in step with the `favorite-apps` list of `org.gnome.shell`.
use vstd::prelude::*;
use crate::text::same_text;

verus! {

/// The favorite entry of the launcher icon.
pub open spec fn launcher_entry() -> Seq<char> {
    "pop-cosmic-launcher.desktop"@
}

/// The favorite entry of the workspaces icon.
pub open spec fn workspaces_entry() -> Seq<char> {
    "pop-cosmic-workspaces.desktop"@
}

/// The favorite entry of the applications icon.
pub open spec fn applications_entry() -> Seq<char> {
    "pop-cosmic-applications.desktop"@
}

/// The three icon entries differ from each other.
pub proof fn lemma_entries_distinct()
    ensures
        launcher_entry() != workspaces_entry(),
        launcher_entry() != applications_entry(),
        workspaces_entry() != applications_entry(),
{
    reveal_strlit("pop-cosmic-launcher.desktop");
    reveal_strlit("pop-cosmic-workspaces.desktop");
    reveal_strlit("pop-cosmic-applications.desktop");
    assert(launcher_entry().len() != workspaces_entry().len());
    assert(launcher_entry().len() != applications_entry().len());
    assert(workspaces_entry().len() != applications_entry().len());
}

/// An entry that belongs to one of the three COSMIC icons.
pub open spec fn is_cosmic(e: Seq<char>) -> bool {
    e == launcher_entry() || e == workspaces_entry() || e == applications_entry()
}

/// `i` is the first index of `favs` that holds `entry`.
pub open spec fn is_first_index(favs: Seq<Seq<char>>, entry: Seq<char>, i: int) -> bool {
    &&& 0 <= i < favs.len()
    &&& favs[i] == entry
    &&& forall|j: int| 0 <= j < i ==> favs[j] != entry
}

/// `i` is the first index of `favs` whose entry is not a COSMIC icon.
pub open spec fn is_first_other(favs: Seq<Seq<char>>, i: int) -> bool {
    &&& 0 <= i < favs.len()
    &&& !is_cosmic(favs[i])
    &&& forall|j: int| 0 <= j < i ==> is_cosmic(favs[j])
}

/// The first index of `favs` that holds `entry` (meaningful where `favs` holds it).
pub open spec fn first_index(favs: Seq<Seq<char>>, entry: Seq<char>) -> int {
    choose|i: int| is_first_index(favs, entry, i)
}

/// Where a switched-on icon is inserted: at `pos`, or before the first
/// entry that is no COSMIC icon where that comes earlier; where every entry
/// is a COSMIC icon, at `pos` or at the end of a shorter list.
pub open spec fn insert_position(favs: Seq<Seq<char>>, pos: int) -> int {
    let limit = if exists|i: int| is_first_other(favs, i) {
        choose|i: int| is_first_other(favs, i)
    } else {
        favs.len() as int
    };
    if pos < limit {
        pos
    } else {
        limit
    }
}

/// The favorites after the switch for `entry` was set to `active`: switching
/// off removes the first occurrence; switching on inserts the entry at its
/// insert position unless it is there already.
pub open spec fn toggled(favs: Seq<Seq<char>>, entry: Seq<char>, pos: int, active: bool) -> Seq<Seq<char>> {
    if !active {
        if favs.contains(entry) {
            favs.remove(first_index(favs, entry))
        } else {
            favs
        }
    } else if favs.contains(entry) {
        favs
    } else {
        favs.insert(insert_position(favs, pos), entry)
    }
}

/// Which of the three icons the favorites hold.
pub struct CosmicFavorites {
    pub launcher: bool,
    pub workspaces: bool,
    pub applications: bool,
}

/// The switch states that a favorites list shows.
pub open spec fn flags_spec(favs: Seq<Seq<char>>) -> (bool, bool, bool) {
    (favs.contains(launcher_entry()), favs.contains(workspaces_entry()), favs.contains(applications_entry()))
}

/// The favorite entry of the launcher icon.
pub fn launcher_desktop() -> (s: &'static str)
    ensures
        s@ == launcher_entry(),
{
    "pop-cosmic-launcher.desktop"
}

/// The favorite entry of the workspaces icon.
pub fn workspaces_desktop() -> (s: &'static str)
    ensures
        s@ == workspaces_entry(),
{
    "pop-cosmic-workspaces.desktop"
}

/// The favorite entry of the applications icon.
pub fn applications_desktop() -> (s: &'static str)
    ensures
        s@ == applications_entry(),
{
    "pop-cosmic-applications.desktop"
}

/// Whether an entry belongs to one of the three COSMIC icons.
pub fn is_cosmic_desktop(e: &str) -> (r: bool)
    ensures
        r == is_cosmic(e@),
{
    same_text(e, launcher_desktop()) || same_text(e, workspaces_desktop()) || same_text(
        e,
        applications_desktop(),
    )
}

/// The switch states for the given favorites.
pub fn cosmic_favorites(favorites: &Vec<String>) -> (r: CosmicFavorites)
    ensures
        (r.launcher, r.workspaces, r.applications) == flags_spec(favorites.deep_view()),
{
    let ghost favs = favorites.deep_view();
    let mut launcher = false;
    let mut workspaces = false;
    let mut applications = false;
    let mut i: usize = 0;
    while i < favorites.len()
        invariant
            favs == favorites.deep_view(),
            i <= favorites.len(),
            launcher == favs.subrange(0, i as int).contains(launcher_entry()),
            workspaces == favs.subrange(0, i as int).contains(workspaces_entry()),
            applications == favs.subrange(0, i as int).contains(applications_entry()),
        decreases favorites.len() - i,
    {
        let f = favorites[i].as_str();
        assert(favs[i as int] == f@);
        if same_text(f, launcher_desktop()) {
            launcher = true;
        } else if same_text(f, workspaces_desktop()) {
            workspaces = true;
        } else if same_text(f, applications_desktop()) {
            applications = true;
        }
        proof {
            lemma_entries_distinct();
            let pre = favs.subrange(0, i as int);
            let post = favs.subrange(0, i + 1);
            assert(post =~= pre.push(favs[i as int]));
            assert forall|e: Seq<char>| post.contains(e) <==> (pre.contains(e) || e == favs[i as int]) by {
                if post.contains(e) {
                    let k = choose|k: int| 0 <= k < post.len() && post[k] == e;
                    if k < i {
                        assert(pre[k] == e);
                    }
                }
                if pre.contains(e) {
                    let k = choose|k: int| 0 <= k < pre.len() && pre[k] == e;
                    assert(post[k] == e);
                }
                if e == favs[i as int] {
                    assert(post[i as int] == e);
                }
            }
        }
        i = i + 1;
    }
    assert(favs.subrange(0, favs.len() as int) =~= favs);
    CosmicFavorites { launcher, workspaces, applications }
}

/// The first index of `favorites` that holds `entry`, if any.
pub fn position_of(favorites: &Vec<String>, entry: &str) -> (r: Option<usize>)
    ensures
        r matches Some(i) ==> is_first_index(favorites.deep_view(), entry@, i as int),
        r is None ==> !favorites.deep_view().contains(entry@),
{
    let ghost favs = favorites.deep_view();
    let mut i: usize = 0;
    while i < favorites.len()
        invariant
            favs == favorites.deep_view(),
            i <= favorites.len(),
            forall|j: int| 0 <= j < i ==> favs[j] != entry@,
        decreases favorites.len() - i,
    {
        if same_text(favorites[i].as_str(), entry) {
            return Some(i);
        }
        i = i + 1;
    }
    None
}

/// The first index of `favorites` whose entry is no COSMIC icon, if any.
pub fn first_other(favorites: &Vec<String>) -> (r: Option<usize>)
    ensures
        r matches Some(i) ==> is_first_other(favorites.deep_view(), i as int),
        r is None ==> forall|j: int| 0 <= j < favorites.len() ==> is_cosmic(#[trigger] favorites.deep_view()[j]),
{
    let ghost favs = favorites.deep_view();
    let mut i: usize = 0;
    while i < favorites.len()
        invariant
            favs == favorites.deep_view(),
            i <= favorites.len(),
            forall|j: int| 0 <= j < i ==> is_cosmic(#[trigger] favs[j]),
        decreases favorites.len() - i,
    {
        if !is_cosmic_desktop(favorites[i].as_str()) {
            return Some(i);
        }
        i = i + 1;
    }
    None
}

/// The first index is unique.
pub proof fn lemma_first_index_unique(favs: Seq<Seq<char>>, entry: Seq<char>, i: int)
    requires
        is_first_index(favs, entry, i),
    ensures
        first_index(favs, entry) == i,
{
    let k = first_index(favs, entry);
    assert(is_first_index(favs, entry, k));
    if k < i {
        assert(favs[k] != entry);
    }
    if i < k {
        assert(favs[i] != entry);
    }
}

/// The first other entry is unique.
pub proof fn lemma_first_other_unique(favs: Seq<Seq<char>>, i: int)
    requires
        is_first_other(favs, i),
    ensures
        (choose|k: int| is_first_other(favs, k)) == i,
{
    let k = choose|k: int| is_first_other(favs, k);
    assert(is_first_other(favs, k));
    if k < i {
        assert(is_cosmic(favs[k]));
    }
    if i < k {
        assert(is_cosmic(favs[i]));
    }
}

/// Sets the switch for `desktop` to `active`, as the dock options page does
/// when one of the three icon switches is toggled; `pos` is the place of the
/// icon among the three.
pub fn toggle_favorite(favorites: &mut Vec<String>, desktop: &str, pos: usize, active: bool)
    ensures
        final(favorites).deep_view() == toggled(old(favorites).deep_view(), desktop@, pos as int, active),
{
    let ghost favs = favorites.deep_view();
    let index = position_of(favorites, desktop);
    if !active {
        if let Some(index) = index {
            proof {
                lemma_first_index_unique(favs, desktop@, index as int);
            }
            let _ = favorites.remove(index);
            assert(favorites.deep_view() =~= favs.remove(index as int));
        }
    } else if index.is_none() {
        let limit = match first_other(favorites) {
            Some(i) => {
                proof {
                    lemma_first_other_unique(favs, i as int);
                }
                i
            },
            None => {
                assert(!exists|i: int| is_first_other(favs, i));
                favorites.len()
            },
        };
        let at = if pos < limit { pos } else { limit };
        assert(at as int == insert_position(favs, pos as int));
        favorites.insert(at, String::from_str(desktop));
        assert(favorites.deep_view() =~= favs.insert(at as int, desktop@));
    } else {
        let ghost i = index.unwrap();
        assert(favs[i as int] == desktop@);
    }
}

/// `entry` occurs at most once in `favs`.
pub open spec fn at_most_once(favs: Seq<Seq<char>>, entry: Seq<char>) -> bool {
    forall|i: int, j: int| 0 <= i < favs.len() && 0 <= j < favs.len() && favs[i] == entry && favs[j] == entry ==> i == j
}

/// A list that holds `entry` has a first index of it.
pub proof fn lemma_first_index_exists(favs: Seq<Seq<char>>, entry: Seq<char>, k: int)
    requires
        0 <= k < favs.len(),
        favs[k] == entry,
    ensures
        is_first_index(favs, entry, first_index(favs, entry)),
        first_index(favs, entry) <= k,
    decreases k,
{
    if forall|j: int| 0 <= j < k ==> favs[j] != entry {
        assert(is_first_index(favs, entry, k));
        lemma_first_index_unique(favs, entry, k);
    } else {
        let j = choose|j: int| 0 <= j < k && favs[j] == entry;
        lemma_first_index_exists(favs, entry, j);
    }
}

/// A list with an entry that is no COSMIC icon has a first such entry.
pub proof fn lemma_first_other_exists(favs: Seq<Seq<char>>, k: int)
    requires
        0 <= k < favs.len(),
        !is_cosmic(favs[k]),
    ensures
        exists|i: int| is_first_other(favs, i),
        (choose|i: int| is_first_other(favs, i)) <= k,
    decreases k,
{
    if forall|j: int| 0 <= j < k ==> is_cosmic(favs[j]) {
        assert(is_first_other(favs, k));
        lemma_first_other_unique(favs, k);
    } else {
        let j = choose|j: int| 0 <= j < k && !is_cosmic(favs[j]);
        lemma_first_other_exists(favs, j);
    }
}

/// The insert position lies within the list, before the first entry that is
/// no COSMIC icon and not after `pos`.
pub proof fn lemma_insert_position_bounds(favs: Seq<Seq<char>>, pos: int)
    requires
        0 <= pos,
    ensures
        0 <= insert_position(favs, pos) <= favs.len(),
        insert_position(favs, pos) <= pos,
        forall|j: int| 0 <= j < insert_position(favs, pos) ==> is_cosmic(#[trigger] favs[j]),
{
    if exists|i: int| is_first_other(favs, i) {
        let i = choose|i: int| is_first_other(favs, i);
        assert(is_first_other(favs, i));
    } else {
        assert forall|j: int| 0 <= j < favs.len() implies is_cosmic(#[trigger] favs[j]) by {
            if !is_cosmic(favs[j]) {
                lemma_first_other_exists(favs, j);
            }
        }
    }
}

/// Switching an icon on puts its entry into the favorites.
pub proof fn lemma_switch_on_adds(favs: Seq<Seq<char>>, entry: Seq<char>, pos: int)
    requires
        0 <= pos,
    ensures
        toggled(favs, entry, pos, true).contains(entry),
{
    if !favs.contains(entry) {
        lemma_insert_position_bounds(favs, pos);
        let at = insert_position(favs, pos);
        assert(toggled(favs, entry, pos, true)[at] == entry);
    }
}

/// Switching an icon off takes its entry out of the favorites, where the
/// entry was there at most once.
pub proof fn lemma_switch_off_removes(favs: Seq<Seq<char>>, entry: Seq<char>, pos: int)
    requires
        at_most_once(favs, entry),
    ensures
        !toggled(favs, entry, pos, false).contains(entry),
{
    if favs.contains(entry) {
        let k = choose|k: int| 0 <= k < favs.len() && favs[k] == entry;
        lemma_first_index_exists(favs, entry, k);
        let f = first_index(favs, entry);
        let r = favs.remove(f);
        assert forall|j: int| 0 <= j < r.len() implies r[j] != entry by {
            if j < f {
                assert(r[j] == favs[j]);
            } else {
                assert(r[j] == favs[j + 1]);
            }
        }
    }
}

/// Toggling the switch of one entry keeps every other entry in or out of
/// the favorites as it was.
pub proof fn lemma_toggle_keeps_others(
    favs: Seq<Seq<char>>,
    entry: Seq<char>,
    pos: int,
    active: bool,
    other: Seq<char>,
)
    requires
        0 <= pos,
        other != entry,
    ensures
        toggled(favs, entry, pos, active).contains(other) == favs.contains(other),
{
    let r = toggled(favs, entry, pos, active);
    if !active && favs.contains(entry) {
        let k = choose|k: int| 0 <= k < favs.len() && favs[k] == entry;
        lemma_first_index_exists(favs, entry, k);
        let f = first_index(favs, entry);
        if favs.contains(other) {
            let m = choose|m: int| 0 <= m < favs.len() && favs[m] == other;
            if m < f {
                assert(r[m] == other);
            } else {
                assert(r[m - 1] == other);
            }
        }
        if r.contains(other) {
            let m = choose|m: int| 0 <= m < r.len() && r[m] == other;
            if m < f {
                assert(favs[m] == other);
            } else {
                assert(favs[m + 1] == other);
            }
        }
    } else if active && !favs.contains(entry) {
        lemma_insert_position_bounds(favs, pos);
        let at = insert_position(favs, pos);
        if favs.contains(other) {
            let m = choose|m: int| 0 <= m < favs.len() && favs[m] == other;
            if m < at {
                assert(r[m] == other);
            } else {
                assert(r[m + 1] == other);
            }
        }
        if r.contains(other) {
            let m = choose|m: int| 0 <= m < r.len() && r[m] == other;
            if m < at {
                assert(favs[m] == other);
            } else if m > at {
                assert(favs[m - 1] == other);
            }
        }
    }
}

/// After one of the three icon switches is toggled, the switches read back
/// from the new favorites show the new state for that icon and the old state
/// for the other two (where an icon switched off was listed at most once).
pub proof fn lemma_toggle_flags(favs: Seq<Seq<char>>, entry: Seq<char>, pos: int, active: bool)
    requires
        0 <= pos,
        is_cosmic(entry),
        !active ==> at_most_once(favs, entry),
    ensures
        flags_spec(toggled(favs, entry, pos, active)) == (
            if entry == launcher_entry() { active } else { flags_spec(favs).0 },
            if entry == workspaces_entry() { active } else { flags_spec(favs).1 },
            if entry == applications_entry() { active } else { flags_spec(favs).2 },
        ),
{
    lemma_entries_distinct();
    if active {
        lemma_switch_on_adds(favs, entry, pos);
    } else {
        lemma_switch_off_removes(favs, entry, pos);
    }
    if entry != launcher_entry() {
        lemma_toggle_keeps_others(favs, entry, pos, active, launcher_entry());
    }
    if entry != workspaces_entry() {
        lemma_toggle_keeps_others(favs, entry, pos, active, workspaces_entry());
    }
    if entry != applications_entry() {
        lemma_toggle_keeps_others(favs, entry, pos, active, applications_entry());
    }
}

/// A switched-on icon that was not listed is inserted once, at its slot
/// `pos` or before the first entry of another application where that comes
/// earlier (at the end where the list is shorter than `pos` and holds only
/// COSMIC icons), with only COSMIC icons before it.
pub proof fn lemma_switch_on_placement(favs: Seq<Seq<char>>, entry: Seq<char>, pos: int)
    requires
        0 <= pos,
        !favs.contains(entry),
    ensures
        ({
            let r = toggled(favs, entry, pos, true);
            let at = insert_position(favs, pos);
            &&& 0 <= at <= pos
            &&& at <= favs.len()
            &&& r == favs.subrange(0, at) + seq![entry] + favs.subrange(at, favs.len() as int)
            &&& forall|i: int| is_first_other(favs, i) ==> at == (if pos < i { pos } else { i })
            &&& (forall|j: int| 0 <= j < favs.len() ==> is_cosmic(#[trigger] favs[j])) ==> at == (if pos
                < favs.len() { pos } else { favs.len() as int })
            &&& r[at] == entry
            &&& at_most_once(r, entry)
            &&& forall|j: int| 0 <= j < at ==> is_cosmic(#[trigger] r[j])
        }),
{
    lemma_insert_position_bounds(favs, pos);
    let r = toggled(favs, entry, pos, true);
    let at = insert_position(favs, pos);
    assert(r =~= favs.subrange(0, at) + seq![entry] + favs.subrange(at, favs.len() as int));
    assert forall|j: int| 0 <= j < at implies is_cosmic(#[trigger] r[j]) by {
        assert(r[j] == favs[j]);
    }
    assert forall|i: int| is_first_other(favs, i) implies at == (if pos < i { pos } else { i }) by {
        lemma_first_other_unique(favs, i);
    }
    if forall|j: int| 0 <= j < favs.len() ==> is_cosmic(#[trigger] favs[j]) {
        assert(!exists|i: int| is_first_other(favs, i));
    }
    assert forall|i: int, j: int|
        0 <= i < r.len() && 0 <= j < r.len() && r[i] == entry && r[j] == entry implies i == j by {
        if i != at {
            if i < at {
                assert(favs[i] == entry);
            } else {
                assert(favs[i - 1] == entry);
            }
        }
        if j != at {
            if j < at {
                assert(favs[j] == entry);
            } else {
                assert(favs[j - 1] == entry);
            }
        }
    }
}

/// Applying the same switch state twice changes nothing more than applying
/// it once (where an icon switched off was listed at most once).
pub proof fn lemma_toggle_idempotent(favs: Seq<Seq<char>>, entry: Seq<char>, pos: int, active: bool)
    requires
        0 <= pos,
        !active ==> at_most_once(favs, entry),
    ensures
        toggled(toggled(favs, entry, pos, active), entry, pos, active) == toggled(favs, entry, pos, active),
{
    if active {
        lemma_switch_on_adds(favs, entry, pos);
    } else {
        lemma_switch_off_removes(favs, entry, pos);
    }
}

/// Exactly the three icon entries are COSMIC entries.
pub proof fn lemma_cosmic_entries(e: Seq<char>)
    ensures
        is_cosmic("pop-cosmic-launcher.desktop"@),
        is_cosmic("pop-cosmic-workspaces.desktop"@),
        is_cosmic("pop-cosmic-applications.desktop"@),
        is_cosmic(e) ==> (e == "pop-cosmic-launcher.desktop"@ || e == "pop-cosmic-workspaces.desktop"@
            || e == "pop-cosmic-applications.desktop"@),
{
}

/// Switching an icon off where the favorites hold it removes exactly its
/// first occurrence and keeps the other favorites in their order.
pub proof fn lemma_switch_off_keeps_order(favs: Seq<Seq<char>>, entry: Seq<char>, pos: int, i: int)
    requires
        0 <= i < favs.len(),
        favs[i] == entry,
        forall|j: int| 0 <= j < i ==> favs[j] != entry,
    ensures
        toggled(favs, entry, pos, false) == favs.subrange(0, i) + favs.subrange(i + 1, favs.len() as int),
{
    assert(is_first_index(favs, entry, i));
    lemma_first_index_unique(favs, entry, i);
    assert(favs.contains(entry));
    assert(favs.remove(i) =~= favs.subrange(0, i) + favs.subrange(i + 1, favs.len() as int));
}

/// Setting a switch to the state its icon already has leaves the favorites
/// unchanged: switching on a listed icon, or switching off an unlisted one.
pub proof fn lemma_toggle_no_change(favs: Seq<Seq<char>>, entry: Seq<char>, pos: int, active: bool)
    requires
        active == favs.contains(entry),
    ensures
        toggled(favs, entry, pos, active) == favs,
{
}

/// Switching on an unlisted icon inserts it at index `k`, keeping every
/// favorite in its order: `k` is `pos`, or the index of the first entry that
/// is none of the three icons where that is smaller, or the length of the
/// list where that is smaller and every entry is one of the three icons.
pub proof fn lemma_switch_on_keeps_order(favs: Seq<Seq<char>>, entry: Seq<char>, pos: int)
    requires
        0 <= pos,
        !favs.contains(entry),
    ensures
        exists|k: int|
            {
                &&& 0 <= k <= favs.len()
                &&& k <= pos
                &&& toggled(favs, entry, pos, true) == favs.subrange(0, k) + seq![entry] + favs.subrange(
                    k,
                    favs.len() as int,
                )
                &&& forall|c: int|
                    0 <= c < favs.len() && !(#[trigger] favs[c] == "pop-cosmic-launcher.desktop"@
                        || favs[c] == "pop-cosmic-workspaces.desktop"@ || favs[c]
                        == "pop-cosmic-applications.desktop"@) && (forall|j: int|
                        0 <= j < c ==> (favs[j] == "pop-cosmic-launcher.desktop"@ || favs[j]
                            == "pop-cosmic-workspaces.desktop"@ || favs[j]
                            == "pop-cosmic-applications.desktop"@)) ==> k == (if pos < c {
                        pos
                    } else {
                        c
                    })
                &&& (forall|j: int|
                    0 <= j < favs.len() ==> (#[trigger] favs[j] == "pop-cosmic-launcher.desktop"@ || favs[j]
                        == "pop-cosmic-workspaces.desktop"@ || favs[j] == "pop-cosmic-applications.desktop"@))
                    ==> k == (if pos < favs.len() { pos } else { favs.len() as int })
            },
{
    lemma_switch_on_placement(favs, entry, pos);
    let k = insert_position(favs, pos);
    assert forall|c: int|
        0 <= c < favs.len() && !(#[trigger] favs[c] == "pop-cosmic-launcher.desktop"@ || favs[c]
            == "pop-cosmic-workspaces.desktop"@ || favs[c] == "pop-cosmic-applications.desktop"@) && (forall|j: int|
            0 <= j < c ==> (favs[j] == "pop-cosmic-launcher.desktop"@ || favs[j] == "pop-cosmic-workspaces.desktop"@
                || favs[j] == "pop-cosmic-applications.desktop"@)) implies k == (if pos < c { pos } else { c }) by {
        assert forall|j: int| 0 <= j < c implies is_cosmic(favs[j]) by {
            lemma_cosmic_entries(favs[j]);
        }
        lemma_cosmic_entries(favs[c]);
        assert(is_first_other(favs, c));
    }
    if forall|j: int|
        0 <= j < favs.len() ==> (#[trigger] favs[j] == "pop-cosmic-launcher.desktop"@ || favs[j]
            == "pop-cosmic-workspaces.desktop"@ || favs[j] == "pop-cosmic-applications.desktop"@) {
        assert forall|j: int| 0 <= j < favs.len() implies is_cosmic(#[trigger] favs[j]) by {
            lemma_cosmic_entries(favs[j]);
        }
    }
    assert(0 <= k <= favs.len());
}

} // verus!
