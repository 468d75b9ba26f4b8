use tui_service::app::{LoanEntryState, LoanType};
use tui_service::circuit_breaker::{CircuitBreaker, FAILURE_THRESHOLD};
use tui_service::clock::MonotonicClock;
use tui_service::dirty_flags::DirtyFlags;
use tui_service::discoverability::CommandPalette;
use tui_service::expiry_buckets::bucket_label;
use tui_service::feedback::{ToastManager, MAX_VISIBLE_TOASTS};
use tui_service::labels::settings_stacked_mid_heights;
use tui_service::mode::{AppMode, ModeContext};
use tui_service::scrollable_table::ScrollableTableState;
use tui_service::text::{max_display_width, pad_left, truncate_chars};

#[test]
fn test_dirty_flags_new() {
    let flags = DirtyFlags::new();
    assert!(!flags.is_dirty());
}

#[test]
fn test_dirty_flags_mark_all() {
    let mut flags = DirtyFlags::new();
    flags.mark_all();
    assert!(flags.is_dirty());
    assert!(flags.tabs_dirty());
    assert!(flags.content_dirty());
    assert!(flags.status_bar_dirty());
}

#[test]
fn test_dirty_flags_clear_all() {
    let mut flags = DirtyFlags::new();
    flags.mark_all();
    flags.clear_all();
    assert!(!flags.is_dirty());
}

#[test]
fn test_dirty_flags_individual() {
    let mut flags = DirtyFlags::new();
    flags.mark_tabs();
    assert!(flags.tabs_dirty());
    assert!(!flags.content_dirty());

    flags.clear_tabs();
    assert!(!flags.is_dirty());
}

#[test]
fn test_command_palette_filter() {
    let mut palette = CommandPalette::new();
    palette.show();

    assert!(!palette.filtered.is_empty());

    palette.push_char('q');
    palette.push_char('u');
    palette.push_char('i');

    assert!(palette.filtered.len() <= 5);

    palette.backspace();
    palette.backspace();
    palette.backspace();

    assert!(!palette.filtered.is_empty());
}

#[test]
fn bucket_labels_match_boxtrades_ranges() {
    assert_eq!(bucket_label(0), "expired");
    assert_eq!(bucket_label(5), "5 days");
    assert_eq!(bucket_label(20), "about 1 month");
    assert_eq!(bucket_label(35), "2 months");
    assert_eq!(bucket_label(60), "3 months");
    assert_eq!(bucket_label(365), "about 1 year");
    assert_eq!(bucket_label(400), "over 1 year");
    assert_eq!(bucket_label(730), "over 1 year");
    assert_eq!(bucket_label(1095), "almost 2 years");
    assert_eq!(bucket_label(2500), "almost 6 years");
}

#[test]
fn test_mode_cycle() {
    assert_eq!(AppMode::Navigation.cycle_next(), AppMode::Edit);
    assert_eq!(AppMode::Edit.cycle_next(), AppMode::View);
    assert_eq!(AppMode::View.cycle_next(), AppMode::Navigation);
}

#[test]
fn test_mode_permissions() {
    assert!(AppMode::Navigation.allows_navigation());
    assert!(!AppMode::Navigation.allows_editing());
    assert!(!AppMode::Navigation.is_read_only());

    assert!(!AppMode::Edit.allows_navigation());
    assert!(AppMode::Edit.allows_editing());
    assert!(!AppMode::Edit.is_read_only());

    assert!(!AppMode::View.allows_navigation());
    assert!(!AppMode::View.allows_editing());
    assert!(AppMode::View.is_read_only());
}

#[test]
fn test_mode_context() {
    let ctx = ModeContext { is_settings_editing: true, ..Default::default() };
    assert_eq!(ctx.determine_mode(), AppMode::Edit);

    let ctx = ModeContext { has_detail_popup: true, ..Default::default() };
    assert_eq!(ctx.determine_mode(), AppMode::View);

    let ctx = ModeContext::default();
    assert_eq!(ctx.determine_mode(), AppMode::Navigation);
}

#[test]
fn move_up_down_respects_max() {
    let mut s = ScrollableTableState::default();
    s.move_down(3);
    assert_eq!(s.selected(), 1);
    s.move_down(3);
    assert_eq!(s.selected(), 2);
    s.move_down(3);
    assert_eq!(s.selected(), 2);
    s.move_up();
    assert_eq!(s.selected(), 1);
    s.move_up();
    s.move_up();
    assert_eq!(s.selected(), 0);
}

#[test]
fn move_down_zero_max_zeros_selection() {
    let mut s = ScrollableTableState::default();
    s.shift_selected(5, 10);
    s.move_down(0);
    assert_eq!(s.selected(), 0);
}

#[test]
fn adjust_scroll_keeps_selection_visible() {
    let mut s = ScrollableTableState::default();
    s.shift_selected(15, 20);
    s.adjust_scroll(5);
    assert_eq!(s.scroll(), 11);
    s.shift_selected(-10, 20);
    s.adjust_scroll(5);
    assert_eq!(s.selected(), 5);
    assert_eq!(s.scroll(), 5);
}

#[test]
fn shift_selected_clamps() {
    let mut s = ScrollableTableState::default();
    s.shift_selected(50, 10);
    assert_eq!(s.selected(), 9);
    s.shift_selected(-100, 10);
    assert_eq!(s.selected(), 0);
}

#[test]
fn shift_scroll_clamps() {
    let mut s = ScrollableTableState::default();
    s.shift_scroll(5, 3);
    assert_eq!(s.scroll(), 3);
    s.shift_scroll(-10, 3);
    assert_eq!(s.scroll(), 0);
}

#[test]
fn test_toast_manager_push() {
    let mut manager = ToastManager::new();
    manager.info("Test message");
    assert_eq!(manager.active_count(), 1);
}

#[test]
fn test_toast_cleanup() {
    let mut manager = ToastManager::new();
    manager.info("Test");
    assert!(!manager.cleanup_expired());
}

#[test]
fn latest_active_toast_is_newest() {
    let mut m = ToastManager::new();
    m.info("first");
    m.success("second");
    assert_eq!(m.latest_active_toast().map(|t| t.message.as_str()), Some("second"));
}

#[test]
fn visible_toasts_prefers_newest_when_over_cap() {
    let mut m = ToastManager::new();
    for i in 0..5 {
        m.info(format!("t{i}").as_str());
    }
    let labels: Vec<String> = m.visible_toasts().into_iter().map(|t| t.message.clone()).collect();
    assert_eq!(labels.len(), MAX_VISIBLE_TOASTS);
    assert_eq!(labels, vec!["t2", "t3", "t4"]);
}

#[test]
fn pad_left_pads_to_width() {
    assert_eq!(pad_left(5, "ab"), "   ab");
    assert_eq!(pad_left(4, "xyz"), " xyz");
}

#[test]
fn pad_left_no_pad_when_wide_enough() {
    assert_eq!(pad_left(3, "hello"), "hello");
    assert_eq!(pad_left(0, ""), "");
}

#[test]
fn max_display_width_empty_is_zero() {
    assert_eq!(max_display_width(&[]), 0);
}

#[test]
fn max_display_width_takes_max_char_count() {
    let v = ["a", "bbb", "cc"];
    assert_eq!(max_display_width(&v), 3);
}

#[test]
fn stacked_mid_heights_sum_to_total() {
    for t in 0u16..=48 {
        let h = settings_stacked_mid_heights(t);
        let sum: u16 = h.iter().sum();
        assert_eq!(sum, t, "t={t} -> {h:?}");
    }
}

#[test]
fn empty_and_short_unchanged() {
    assert_eq!(truncate_chars("", 5), "");
    assert_eq!(truncate_chars("hi", 5), "hi");
}

#[test]
fn long_ascii_truncates() {
    assert_eq!(truncate_chars("abcdef", 4), "abc…");
}

#[test]
fn unicode_counts_chars_not_bytes() {
    let s = "日本語テスト";
    assert_eq!(truncate_chars(s, 4), "日本語…");
}

#[test]
fn loan_entry_toggle_loan_type_alternates_variant() {
    let mut entry = LoanEntryState::new();
    assert_eq!(entry.loan_type, LoanType::ShirBased);
    entry.toggle_loan_type();
    assert_eq!(entry.loan_type, LoanType::CpiLinked);
    entry.toggle_loan_type();
    assert_eq!(entry.loan_type, LoanType::ShirBased);
}

#[test]
fn opens_after_consecutive_failure_threshold() {
    let clock = MonotonicClock::new();
    let mut cb = CircuitBreaker::new();
    assert!(cb.can_attempt(&clock));
    for _ in 0..FAILURE_THRESHOLD {
        cb.record_failure(&clock);
    }
    assert!(cb.is_open());
    assert!(!cb.can_attempt(&clock));
}

#[test]
fn resets_fully_on_success() {
    let clock = MonotonicClock::new();
    let mut cb = CircuitBreaker::new();
    cb.record_failure(&clock);
    cb.record_failure(&clock);
    cb.record_success();
    assert!(!cb.is_open());
    assert!(cb.can_attempt(&clock));
}

use tui_service::expiry_buckets::tbill_tenor;
use tui_service::labels::{is_option_symbol, position_type_label, symbol_stem, truncate_command_id, truncate_detail};

#[test]
fn label_rules_give_exact_values() {
    assert_eq!(position_type_label(Some("OPT")), "Option");
    assert_eq!(position_type_label(Some("STOCK")), "Equity");
    assert_eq!(position_type_label(Some("FUT")), "Futures");
    assert_eq!(position_type_label(Some("BOND")), "—");
    assert_eq!(position_type_label(None), "—");
    assert!(is_option_symbol("SPXW 240119C04700000"));
    assert!(!is_option_symbol("AAPL"));
    assert_eq!(symbol_stem("  SPX 240119C04700000"), "SPX");
    assert_eq!(symbol_stem("   "), "   ");
    assert_eq!(tbill_tenor(30), "1M");
    assert_eq!(tbill_tenor(100), "3M");
    assert_eq!(tbill_tenor(200), "6M");
    assert_eq!(tbill_tenor(400), "1Y");
    assert_eq!(truncate_detail("abcdefgh", 5), "abcd…");
    assert_eq!(truncate_command_id("0123456789abcdefghijkl").chars().count(), 18);
}

use tui_service::events::{Event, EventCategory, EventPayload, EventPriority, SnapshotSource};

#[test]
fn events_get_a_hyphenated_uuid_and_keep_their_fields() {
    let e = Event::new(
        EventPriority::High,
        EventCategory::Snapshot,
        EventPayload::SnapshotReceived { source: SnapshotSource::Nats, age_secs: 3 },
    );
    assert_eq!(e.id.len(), 36);
    assert_eq!(e.id.chars().filter(|c| *c == '-').count(), 4);
    assert_eq!(e.priority.label(), "HIGH");
    assert_eq!(e.category.label(), "snap");
    let other = Event::new(EventPriority::Low, EventCategory::Alert, e.payload.clone());
    assert_ne!(other.id, e.id);
}

#[test]
fn half_open_failure_reopens_the_breaker() {
    let mut cb = CircuitBreaker::new();
    cb.record_failure_at(0);
    cb.record_failure_at(0);
    cb.record_failure_at(0);
    assert!(cb.is_open());
    assert!(cb.can_attempt_at(30_000));
    assert!(!cb.is_open());
    cb.record_failure_at(30_000);
    assert!(cb.is_open());
    assert!(!cb.can_attempt_at(59_999));
    assert!(cb.can_attempt_at(60_000));
}
