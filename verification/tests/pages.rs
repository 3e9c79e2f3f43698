use pop_desktop_widget::pages::{page_order, show_extensions_notice};
use pop_desktop_widget::text::{contains_text, same_text};
use pop_desktop_widget::video::{bus_reaction, BusAction, BusMessage};
use pop_desktop_widget::widgets::{
    bold_markup, clock_alignment_entry, clock_alignment_setting, header_action, HeaderAction,
};

#[test]
fn page_order_puts_main_first() {
    let existing = vec!["wifi".to_string(), "bluetooth".to_string()];
    assert_eq!(page_order(&existing), vec!["main", "wifi", "bluetooth", "appearance", "dock", "workspaces"]);
    assert_eq!(page_order(&vec![]), vec!["main", "appearance", "dock", "workspaces"]);
}

#[test]
fn extensions_notice_shown_once() {
    assert!(show_extensions_notice(true, false));
    assert!(!show_extensions_notice(true, true));
    assert!(!show_extensions_notice(false, false));
}

#[test]
fn headers() {
    assert!(header_action(false, true) == HeaderAction::Clear);
    assert!(header_action(true, false) == HeaderAction::AddSeparator);
    assert!(header_action(true, true) == HeaderAction::Keep);
}

#[test]
fn bold_titles() {
    assert_eq!(bold_markup("Dock"), "<b>Dock</b>");
    assert_eq!(bold_markup(""), "<b></b>");
}

#[test]
fn clock_alignment() {
    assert_eq!(clock_alignment_entry(2), 2);
    assert_eq!(clock_alignment_entry(-1), u32::MAX);
    assert_eq!(clock_alignment_setting(Some(1)), 1);
    assert_eq!(clock_alignment_setting(None), 0);
    for x in [-5, 0, 1, 2, i32::MAX, i32::MIN] {
        assert_eq!(clock_alignment_setting(Some(clock_alignment_entry(x))), x);
    }
}

#[test]
fn bus() {
    assert_eq!(bus_reaction(false, BusMessage::EndOfStream), (BusAction::Ignore, false));
    assert_eq!(bus_reaction(true, BusMessage::EndOfStream), (BusAction::Restart, true));
    assert_eq!(bus_reaction(true, BusMessage::Error), (BusAction::Report, true));
    assert_eq!(bus_reaction(true, BusMessage::Other), (BusAction::Ignore, true));
}

#[test]
fn text_helpers() {
    assert!(same_text("héllo", "héllo"));
    assert!(!same_text("abc", "abd"));
    assert!(!same_text("abc", "ab"));
    assert!(contains_text("héllo wörld", "ö"));
    assert!(contains_text("abc", ""));
    assert!(!contains_text("ab", "abc"));
    assert!(contains_text("abcabd", "abd"));
}
