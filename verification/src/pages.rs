//! The pages of the desktop widget and the notice of the initial setup.
use vstd::prelude::*;

verus! {

/// The id of the main page.
pub open spec fn main_page_id() -> Seq<char> {
    "main"@
}

/// The ids of the pages added after the stack's own pages.
pub open spec fn trailing_page_ids() -> Seq<Seq<char>> {
    seq!["appearance"@, "dock"@, "workspaces"@]
}

/// The order of the pages of the stack, given the names of the pages the
/// stack held before: the main page, then the stack's own pages in their
/// order, then the appearance, dock and workspaces pages.
pub fn page_order(existing: &Vec<String>) -> (r: Vec<String>)
    ensures
        r.deep_view() == seq![main_page_id()] + existing.deep_view() + trailing_page_ids(),
{
    let mut r: Vec<String> = Vec::new();
    r.push(String::from_str("main"));
    let mut i: usize = 0;
    while i < existing.len()
        invariant
            i <= existing.len(),
            r.deep_view() == seq![main_page_id()] + existing.deep_view().subrange(0, i as int),
        decreases existing.len() - i,
    {
        let ghost before = r.deep_view();
        r.push(existing[i].clone());
        assert(r.deep_view() =~= before.push(existing.deep_view()[i as int]));
        assert(existing.deep_view().subrange(0, i + 1) =~= existing.deep_view().subrange(0, i as int).push(
            existing.deep_view()[i as int],
        ));
        i = i + 1;
    }
    let ghost middle = r.deep_view();
    r.push(String::from_str("appearance"));
    r.push(String::from_str("dock"));
    r.push(String::from_str("workspaces"));
    assert(existing.deep_view().subrange(0, existing.len() as int) =~= existing.deep_view());
    assert(r.deep_view() =~= middle + trailing_page_ids());
    r
}

/// The page of the initial setup that tells about disabled extensions is
/// shown once: where the extensions were backed up and no notice was given.
pub fn show_extensions_notice(backup_exists: bool, notified_exists: bool) -> (r: bool)
    ensures
        r == (backup_exists && !notified_exists),
{
    backup_exists && !notified_exists
}

} // verus!
