//! Typed actions produced by key routing and applied to the application state.
use vstd::prelude::*;
use crate::tab::Tab;
use crate::dirty_flags::DirtyFlags;

verus! {

/// Actions that can result from key events.
#[derive(Debug, Clone, Copy, PartialEq, Eq, Structural)]
pub enum Action {
    Quit,
    ShowHelp,
    ToggleLogPanel,
    ToggleTreePanel,
    TabNext,
    TabPrev,
    JumpToTab(u8),
    YieldSymbolPrev,
    YieldSymbolNext,
    YieldCurveScrollUp,
    YieldCurveScrollDown,
    YieldCurveDetail,
    YieldRefresh,
    PositionsScrollUp,
    PositionsScrollDown,
    PositionsScrollPageUp,
    PositionsScrollPageDown,
    PositionsToggleCombo,
    PositionsCycleSort,
    PositionsDetail,
    OrdersScrollUp,
    OrdersScrollDown,
    OrdersScrollPageUp,
    OrdersScrollPageDown,
    OrdersDetail,
    OrdersFilterFocus,
    OrdersFilterChar(char),
    OrdersFilterBackspace,
    OrdersFilterClear,
    OrdersFilterFocusNext,
    OrdersFilterFocusPrev,
    LoansScrollUp,
    LoansScrollDown,
    LoansScrollPageUp,
    LoansScrollPageDown,
    LoansNewLoan,
    LoansBulkImportFocus,
    LoansImportPathChar(char),
    LoansImportPathBackspace,
    LoansImportPathEnter,
    LoansImportPathEscape,
    LoanImportFocusNext,
    LoanImportFocusPrev,
    DiscountBankScrollUp,
    DiscountBankScrollDown,
    DiscountBankScrollPageUp,
    DiscountBankScrollPageDown,
    DiscountBankRefresh,
    LedgerScrollUp,
    LedgerScrollDown,
    LedgerScrollPageUp,
    LedgerScrollPageDown,
    LedgerRefresh,
    LoansInputChar(char),
    LoansInputBackspace,
    LoansInputEscape,
    LoansInputEnter,
    LoansInputNavUp,
    LoansInputNavDown,
    AlertsScrollUp,
    AlertsScrollDown,
    AlertsScrollPageUp,
    AlertsScrollPageDown,
    DashboardScrollUp,
    DashboardScrollDown,
    DashboardNavigateToChart,
    ScenariosScrollUp,
    ScenariosScrollDown,
    ScenariosScrollPageUp,
    ScenariosScrollPageDown,
    ScenariosDetail,
    ScenariosDteContract,
    ScenariosDteExpand,
    ScenariosCycleStrikeWidth,
    ScenariosExecute,
    ChartSearchFocus,
    ChartSearchChar(char),
    ChartSearchBackspace,
    ChartSearchUp,
    ChartSearchDown,
    ChartSearchEnter,
    ChartSearchEscape,
    ChartSearchFirst,
    ChartSearchLast,
    ChartSearchFocusNext,
    ChartSearchFocusPrev,
    ChartPillLeft,
    ChartPillRight,
    ChartPillUp,
    ChartPillDown,
    ChartPillSelect,
    SettingsScrollUp,
    SettingsScrollDown,
    SettingsAddSymbol,
    SettingsEditConfig,
    SettingsEditCredential,
    SettingsDelete,
    SettingsReset,
    LogScrollUp,
    LogScrollDown,
    LogPageUp,
    LogPageDown,
    LogLevelUp,
    LogLevelDown,
    LogHide,
    LogEscape,
    LogLevelError,
    LogLevelWarn,
    LogLevelInfo,
    LogLevelDebug,
    TreeUp,
    TreeDown,
    TreeLeft,
    TreeRight,
    TreeToggle,
    TreeEscape,
    ModeCycle,
    CommandPalette,
    CommandPalettePrev,
    CommandPaletteNext,
    CommandPaletteBackspace,
    CommandPaletteChar(char),
    CommandPaletteFocusNext,
    CommandPaletteFocusPrev,
    CloseDetail,
    MouseScrollUp,
    MouseScrollDown,
    MouseScrollUpIn(Tab),
    MouseScrollDownIn(Tab),
    StrategyStart,
    StrategyStop,
    StrategyCancelAll,
    OrdersCancel,
    ForceSnapshot,
    ThemeCycle,
    SplitPaneToggle,
    WorkspaceFocusPrev,
    WorkspaceFocusNext,
    SettingsSectionPrev,
    SettingsSectionNext,
    FmpDetail,
    NoOp,
}

/// Whether `a` keeps the command palette open (typing or navigating inside it).
pub open spec fn spec_palette_input_action(a: Action) -> bool {
    match a {
        Action::CommandPalette | Action::CommandPalettePrev | Action::CommandPaletteNext
        | Action::CommandPaletteBackspace | Action::CommandPaletteChar(_)
        | Action::CommandPaletteFocusNext | Action::CommandPaletteFocusPrev | Action::NoOp => true,
        _ => false,
    }
}

/// True while the user is typing or navigating inside the command palette.
pub fn command_palette_input_action(action: &Action) -> (r: bool)
    ensures
        r == spec_palette_input_action(*action),
{
    match action {
        Action::CommandPalette | Action::CommandPalettePrev | Action::CommandPaletteNext
        | Action::CommandPaletteBackspace | Action::CommandPaletteChar(_)
        | Action::CommandPaletteFocusNext | Action::CommandPaletteFocusPrev | Action::NoOp => true,
        _ => false,
    }
}

/// Regions an action dirties: tab switches dirty tabs and content; scrolling dirties
/// content; filter and combo toggles dirty content and the hint bar; the theme dirties
/// everything; overlays dirty the overlay; anything else dirties everything.
pub open spec fn spec_dirty_for_action(f: DirtyFlags, a: Action) -> DirtyFlags {
    match a {
        Action::TabNext | Action::TabPrev | Action::JumpToTab(_) => DirtyFlags { tabs: true, content: true, ..f },
        Action::PositionsScrollUp | Action::PositionsScrollDown | Action::PositionsScrollPageUp
        | Action::PositionsScrollPageDown | Action::OrdersScrollUp | Action::OrdersScrollDown
        | Action::OrdersScrollPageUp | Action::OrdersScrollPageDown | Action::YieldSymbolPrev
        | Action::YieldSymbolNext | Action::YieldCurveScrollUp | Action::YieldCurveScrollDown
        | Action::YieldRefresh | Action::LoansScrollUp | Action::LoansScrollDown
        | Action::LoansScrollPageUp | Action::LoansScrollPageDown | Action::DiscountBankScrollUp
        | Action::DiscountBankScrollDown | Action::DiscountBankScrollPageUp
        | Action::DiscountBankScrollPageDown | Action::LedgerScrollUp | Action::LedgerScrollDown
        | Action::LedgerScrollPageUp | Action::LedgerScrollPageDown | Action::LedgerRefresh
        | Action::AlertsScrollUp | Action::AlertsScrollDown | Action::AlertsScrollPageUp
        | Action::AlertsScrollPageDown | Action::DashboardScrollUp | Action::DashboardScrollDown
        | Action::ScenariosScrollUp | Action::ScenariosScrollDown | Action::ScenariosScrollPageUp
        | Action::ScenariosScrollPageDown | Action::MouseScrollUp | Action::MouseScrollDown
        | Action::MouseScrollUpIn(_) | Action::MouseScrollDownIn(_) => DirtyFlags { content: true, ..f },
        Action::PositionsToggleCombo | Action::PositionsCycleSort | Action::OrdersFilterFocus
        | Action::OrdersFilterChar(_) | Action::OrdersFilterBackspace | Action::OrdersFilterClear
        | Action::OrdersFilterFocusNext | Action::OrdersFilterFocusPrev => DirtyFlags { content: true, hint_bar: true, ..f },
        Action::ToggleLogPanel | Action::ToggleTreePanel | Action::ShowHelp
        | Action::CommandPalette => DirtyFlags { overlay: true, ..f },
        _ => DirtyFlags::all_dirty(),
    }
}

/// Mark the regions an action dirties (see `spec_dirty_for_action`).
pub fn mark_dirty_for_action(flags: &mut DirtyFlags, action: Action)
    ensures
        *final(flags) == spec_dirty_for_action(*old(flags), action),
{
    match action {
        Action::TabNext | Action::TabPrev | Action::JumpToTab(_) => {
            flags.mark_tabs();
            flags.mark_content();
        },
        Action::PositionsScrollUp | Action::PositionsScrollDown | Action::PositionsScrollPageUp
        | Action::PositionsScrollPageDown | Action::OrdersScrollUp | Action::OrdersScrollDown
        | Action::OrdersScrollPageUp | Action::OrdersScrollPageDown | Action::YieldSymbolPrev
        | Action::YieldSymbolNext | Action::YieldCurveScrollUp | Action::YieldCurveScrollDown
        | Action::YieldRefresh | Action::LoansScrollUp | Action::LoansScrollDown
        | Action::LoansScrollPageUp | Action::LoansScrollPageDown | Action::DiscountBankScrollUp
        | Action::DiscountBankScrollDown | Action::DiscountBankScrollPageUp
        | Action::DiscountBankScrollPageDown | Action::LedgerScrollUp | Action::LedgerScrollDown
        | Action::LedgerScrollPageUp | Action::LedgerScrollPageDown | Action::LedgerRefresh
        | Action::AlertsScrollUp | Action::AlertsScrollDown | Action::AlertsScrollPageUp
        | Action::AlertsScrollPageDown | Action::DashboardScrollUp | Action::DashboardScrollDown
        | Action::ScenariosScrollUp | Action::ScenariosScrollDown | Action::ScenariosScrollPageUp
        | Action::ScenariosScrollPageDown | Action::MouseScrollUp | Action::MouseScrollDown
        | Action::MouseScrollUpIn(_) | Action::MouseScrollDownIn(_) => {
            flags.mark_content();
        },
        Action::PositionsToggleCombo | Action::PositionsCycleSort | Action::OrdersFilterFocus
        | Action::OrdersFilterChar(_) | Action::OrdersFilterBackspace | Action::OrdersFilterClear
        | Action::OrdersFilterFocusNext | Action::OrdersFilterFocusPrev => {
            flags.mark_content();
            flags.mark_hint_bar();
        },
        Action::ToggleLogPanel | Action::ToggleTreePanel | Action::ShowHelp
        | Action::CommandPalette => {
            flags.mark_overlay();
        },
        _ => {
            flags.mark_all();
        },
    }
}

} // verus!
