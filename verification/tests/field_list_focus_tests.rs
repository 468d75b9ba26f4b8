use tui_service::field_list_focus::{FieldListFocus, FieldListRegion};

#[test]
fn opened_starts_on_field_and_tabs_cycle() {
    let mut s = FieldListFocus::new();
    s.on_open();
    assert!(s.allows_field_edit());
    s.tab_next();
    assert!(!s.allows_field_edit());
    s.tab_next();
    assert!(s.allows_field_edit());
    s.tab_prev();
    assert!(!s.allows_field_edit());
}

#[test]
fn closed_clears_focus() {
    let mut s = FieldListFocus::new();
    s.on_open();
    s.tab_next();
    s.on_close();
    assert!(!s.allows_field_edit());
    assert!(s.focused_region().is_none());
}

#[test]
fn focused_region_tracks_tab_target() {
    let mut s = FieldListFocus::new();
    s.on_open();
    assert_eq!(s.focused_region(), Some(FieldListRegion::Field));
    s.tab_next();
    assert_eq!(s.focused_region(), Some(FieldListRegion::List));
}

#[test]
fn before_on_open_no_region_and_field_edit_disabled() {
    let s = FieldListFocus::new();
    assert_eq!(s.focused_region(), None);
    assert!(!s.allows_field_edit());
}

#[test]
fn tab_next_prev_before_on_open_is_safe_noop() {
    let mut s = FieldListFocus::new();
    s.tab_next();
    s.tab_prev();
    assert_eq!(s.focused_region(), None);
    assert!(!s.allows_field_edit());
}

#[test]
fn prev_from_field_wraps_to_list() {
    let mut s = FieldListFocus::new();
    s.on_open();
    assert_eq!(s.focused_region(), Some(FieldListRegion::Field));
    s.tab_prev();
    assert_eq!(s.focused_region(), Some(FieldListRegion::List));
    assert!(!s.allows_field_edit());
}

#[test]
fn on_open_resets_to_field_after_list_focus() {
    let mut s = FieldListFocus::new();
    s.on_open();
    s.tab_next();
    assert_eq!(s.focused_region(), Some(FieldListRegion::List));
    s.on_open();
    assert_eq!(s.focused_region(), Some(FieldListRegion::Field));
    assert!(s.allows_field_edit());
}

#[test]
fn reopen_after_close_starts_on_field() {
    let mut s = FieldListFocus::new();
    s.on_open();
    s.tab_next();
    s.on_close();
    s.on_open();
    assert_eq!(s.focused_region(), Some(FieldListRegion::Field));
    assert!(s.allows_field_edit());
}

#[test]
fn tab_then_shift_tab_returns_to_start() {
    let mut s = FieldListFocus::new();
    s.on_open();
    s.tab_next();
    s.tab_prev();
    assert_eq!(s.focused_region(), Some(FieldListRegion::Field));
    s.tab_prev();
    s.tab_next();
    assert_eq!(s.focused_region(), Some(FieldListRegion::Field));
}

#[test]
fn on_open_twice_keeps_two_bands() {
    let mut s = FieldListFocus::new();
    s.on_open();
    s.on_open();
    s.tab_next();
    s.tab_next();
    assert_eq!(s.focused_region(), Some(FieldListRegion::Field));
}
