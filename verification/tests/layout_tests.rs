use tui_service::candlestick::CandlestickChart;
use tui_service::chrome_layout::{
    centered_rect, progress_area, split_vertical_chrome, split_workspace_outer_rows, toast_area, HINT_BAR_HEIGHT,
    STATUS_BAR_HEIGHT, TAB_BAR_HEIGHT, WORKSPACE_BANNER_ROW_HEIGHT,
};
use tui_service::mouse::Area;
use tui_service::tui_interact::enabled;
use tui_service::colors::UiColor;
use tui_service::feedback::{StatusIndicator, ToastLevel};
use tui_service::mode::AppMode;
use tui_service::banner::workspace_banner;
use tui_service::focus::VisibleWorkspace;

#[derive(Clone, PartialEq, Eq, Hash)]
enum Element {
    A,
    B,
}

fn rect(x: u16, y: u16, width: u16, height: u16) -> Area {
    Area { x, y, width, height }
}

#[test]
fn split_four_regions_stacked_vertically() {
    let area = rect(0, 0, 100, 30);
    let [tab, main, hint, status] = split_vertical_chrome(area);
    assert_eq!(tab.height, TAB_BAR_HEIGHT);
    assert_eq!(hint.height, HINT_BAR_HEIGHT);
    assert_eq!(status.height, STATUS_BAR_HEIGHT);
    assert_eq!(tab.y + tab.height, main.y);
    assert_eq!(main.y + main.height, hint.y);
    assert_eq!(hint.y + hint.height, status.y);
    assert_eq!(status.y + status.height, area.y + area.height);
}

#[test]
fn split_workspace_banner_then_body() {
    let area = rect(0, 0, 80, 20);
    let (banner, body) = split_workspace_outer_rows(area);
    assert_eq!(banner.height, WORKSPACE_BANNER_ROW_HEIGHT);
    assert_eq!(banner.y + banner.height, body.y);
    assert_eq!(body.y + body.height, area.y + area.height);
}

#[test]
fn chrome_main_area_takes_the_remaining_rows() {
    let [_, main, _, _] = split_vertical_chrome(rect(0, 0, 120, 40));
    assert_eq!(main, rect(0, 3, 120, 35));
}

#[test]
fn toast_area_sits_bottom_right() {
    assert_eq!(toast_area(rect(0, 0, 120, 40)), rect(78, 30, 40, 9));
}

#[test]
fn toast_area_clamps_on_tiny_screens() {
    assert_eq!(toast_area(rect(0, 0, 30, 6)), rect(0, 0, 30, 6));
}

#[test]
fn progress_area_is_centred() {
    assert_eq!(progress_area(rect(0, 0, 120, 40)), rect(35, 17, 50, 5));
    assert_eq!(progress_area(rect(0, 0, 20, 6)), rect(2, 2, 16, 2));
}

#[test]
fn enabled_is_true() {
    assert!(enabled());
}

#[test]
fn focus_manager_compiles() {
    let mut fm = ratatui_interact::state::FocusManager::new();
    fm.register(Element::A);
    fm.register(Element::B);
    fm.next();
    fm.prev();
}

#[test]
fn candlestick_scroll_stops_at_both_ends() {
    let mut c = CandlestickChart::new("SPX".to_string(), 12);
    c.scroll_left();
    assert_eq!(c.scroll_offset(), 0);
    c.scroll_right();
    c.scroll_right();
    c.scroll_right();
    assert_eq!(c.scroll_offset(), 2);
    c.scroll_left();
    assert_eq!(c.scroll_offset(), 1);
    assert_eq!(c.symbol(), "SPX");
}

#[test]
fn candlestick_short_chart_does_not_scroll_right() {
    let mut c = CandlestickChart::new("SPX".to_string(), 5);
    c.scroll_right();
    assert_eq!(c.scroll_offset(), 0);
}

#[test]
fn candlestick_visible_window_fits_width() {
    let mut c = CandlestickChart::new("SPX".to_string(), 30);
    assert_eq!(c.visible_window(60), (0, 10));
    for _ in 0..5 {
        c.scroll_right();
    }
    assert_eq!(c.visible_window(600), (5, 30));
    let empty = CandlestickChart::new("SPX".to_string(), 0);
    assert_eq!(empty.visible_window(60), (0, 0));
}

#[test]
fn centered_rect_takes_a_share_of_the_screen() {
    assert_eq!(centered_rect(86, 34, rect(0, 0, 100, 50)), rect(7, 16, 86, 17));
    assert_eq!(centered_rect(50, 50, rect(10, 4, 40, 20)), rect(20, 9, 20, 10));
}

#[test]
fn test_status_indicator() {
    assert_eq!(StatusIndicator::Success.color(), UiColor::Green);
    assert_eq!(StatusIndicator::Error.symbol(), "✗");
}

#[test]
fn mode_and_toast_colours() {
    assert_eq!(AppMode::Navigation.color(), UiColor::Green);
    assert_eq!(AppMode::Edit.color(), UiColor::Yellow);
    assert_eq!(AppMode::View.color(), UiColor::Cyan);
    assert_eq!(ToastLevel::Error.color(), UiColor::Red);
    assert_eq!(ToastLevel::Info.color(), UiColor::Cyan);
}

#[test]
fn banner_uses_full_form_when_it_fits() {
    let b = workspace_banner(VisibleWorkspace::Market, "Market", "Dash · Pos", "Dashboard", 160);
    assert_eq!(b.title, " Market ");
    assert_eq!(b.summary, "Dash · Pos  |  Focus: ");
    assert_eq!(b.focus, "Dashboard");
    assert_eq!(b.tail, "  |  Tab/Shift-Tab cycles panes  |  Wheel: pane under cursor");
}

#[test]
fn banner_falls_back_to_tight_form_when_narrow() {
    let b = workspace_banner(VisibleWorkspace::Market, "Market", "Dash · Pos", "Dashboard", 60);
    assert_eq!(b.summary, "Dash · Pos | ");
    assert_eq!(b.focus, "Dashboard");
    assert_eq!(b.tail, " | Tab panes");
}

#[test]
fn banner_keeps_full_form_on_tiny_screens() {
    let b = workspace_banner(VisibleWorkspace::Operations, "Operations", "Alerts · Logs", "Settings", 20);
    assert_eq!(b.tail, "  |  Tab/Shift-Tab cycles panes");
    assert_eq!(b.summary, "Alerts · …  |  Focus: ");
}
