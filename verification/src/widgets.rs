//! Decisions of the shared row and list widgets of the settings pages.
use vstd::prelude::*;

verus! {

/// What the header function of a framed list does to a row's header.
#[derive(PartialEq, Eq, Structural, Clone, Copy, Debug)]
pub enum HeaderAction {
    /// The first row gets no header.
    Clear,
    /// A later row without a header gets a horizontal separator.
    AddSeparator,
    /// A later row that has a header keeps it.
    Keep,
}

/// The header action for a row: `has_previous` tells whether a row stands
/// before it, `has_header` whether it has a header already.
pub fn header_action(has_previous: bool, has_header: bool) -> (a: HeaderAction)
    ensures
        !has_previous ==> a == HeaderAction::Clear,
        has_previous && !has_header ==> a == HeaderAction::AddSeparator,
        has_previous && has_header ==> a == HeaderAction::Keep,
{
    if !has_previous {
        HeaderAction::Clear
    } else if !has_header {
        HeaderAction::AddSeparator
    } else {
        HeaderAction::Keep
    }
}

/// The markup of a section title: the title in bold.
pub fn bold_markup(title: &str) -> (s: String)
    ensures
        s@ == "<b>"@ + title@ + "</b>"@,
{
    let mut s = String::from_str("<b>");
    s.append(title);
    s.append("</b>");
    s
}

/// The entry of the clock-alignment combo box shown for the value of the
/// `clock-alignment` enum key (the value taken as unsigned).
pub fn clock_alignment_entry(setting: i32) -> (r: u32)
    ensures
        r == setting as u32,
{
    setting as u32
}

/// The `clock-alignment` value written when the combo box shows entry
/// `active` (none shown counts as the first entry).
pub fn clock_alignment_setting(active: Option<u32>) -> (r: i32)
    ensures
        r == (match active {
            Some(a) => a as i32,
            None => 0i32,
        }),
{
    match active {
        Some(a) => a as i32,
        None => 0,
    }
}

/// Showing a stored clock alignment and writing the entry back stores the
/// same value.
pub proof fn lemma_clock_alignment_round_trip(setting: i32)
    ensures
        ((setting as u32) as i32) == setting,
{
    assert(((setting as u32) as i32) == setting) by (bit_vector);
}

} // verus!
