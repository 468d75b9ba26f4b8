//! Interaction state of the terminal UI and the rules that read and change it.
//!
//! `App` holds, as plain values, what the input rules read: which overlays and input
//! buffers are open, selections, flags of requests in flight and the toast queue. Data
//! that arrives from the backend (snapshots, curves, loans) stays with the caller; where a
//! rule needs it, the caller hands in the value the rule reads (a list length, a
//! selection), and where a rule needs outside work done, it returns an [`Effect`].
use vstd::prelude::*;
use crate::app_config::{
    spec_config_hint, validate_config_hint, ConfigOverrides, config_key_value_at,
    spec_config_row,
};
use crate::clock::{instant_elapsed_millis, instant_now};
use crate::config::TuiConfig;
use crate::dirty_flags::DirtyFlags;
use crate::discoverability::CommandPalette;
use crate::events::{ConnectionState, ConnectionStatus};
use crate::feedback::{spec_pushed, ToastLevel, ToastManager};
use crate::field_list_focus::FieldListFocus;
use crate::labels::LevelFilter;
use crate::mode::{spec_mode_label, AppMode};
use crate::parse::{is_float_text, parse_i32, spec_is_float_text, spec_parse_i32};
use crate::scrollable_table::ScrollableTableState;
use crate::tab::Tab;
use crate::text::{concat, copy_str, push_str, strings_view};
use std::collections::VecDeque;
use std::time::Instant;

verus! {

/// Status of a manual yield-refresh request.
#[derive(Debug, Clone, PartialEq, Eq)]
pub enum RefreshTaskStatus {
    /// Request sent to the backend; waiting for the update.
    Pending,
    /// Update received; data is fresh.
    Done,
    /// Request failed or the backend returned an error.
    Error(String),
}

/// Where keyboard input goes, from the most to the least specific surface.
#[derive(Debug, Clone, Copy, PartialEq, Eq, Structural)]
pub enum InputMode {
    Normal,
    Help,
    DetailPopup,
    SettingsEditConfig,
    SettingsAddSymbol,
    SettingsCredentialEntry,
    LoanForm,
    LoanImportPath,
    ChartSearch,
    OrdersFilter,
    LogPanel,
    TreePanel,
    CommandPalette,
}

/// Kind of loan being entered.
#[derive(Debug, Clone, Copy, PartialEq, Eq, Structural)]
pub enum LoanType {
    ShirBased,
    CpiLinked,
}

/// Number of fields of the loan entry form.
pub const LOAN_FORM_FIELD_COUNT: usize = 10;

/// State for the loan entry form overlay in the Loans tab.
#[derive(Debug, Clone)]
pub struct LoanEntryState {
    pub bank_name: String,
    pub account_number: String,
    pub loan_type: LoanType,
    pub principal: String,
    pub interest_rate: String,
    pub spread: String,
    pub origination_date: String,
    pub first_payment_date: String,
    pub num_payments: String,
    pub currency: String,
    pub monthly_payment: String,
    pub maturity_date: String,
    pub current_field: usize,
    pub validation_error: Option<String>,
}

/// Whether the loan form holds everything a loan record needs: bank, account, a numeric
/// principal and rate, both dates, and a whole number of payments.
pub open spec fn spec_loan_complete(e: LoanEntryState) -> bool {
    &&& e.bank_name@.len() > 0
    &&& e.account_number@.len() > 0
    &&& e.principal@.len() > 0
    &&& spec_is_float_text(e.principal@)
    &&& e.interest_rate@.len() > 0
    &&& spec_is_float_text(e.interest_rate@)
    &&& e.origination_date@.len() > 0
    &&& e.first_payment_date@.len() > 0
    &&& e.num_payments@.len() > 0
    &&& spec_parse_i32(e.num_payments@) is Some
}

impl LoanEntryState {
    /// An empty form: SHIR-based, currency ILS, first field focused.
    pub fn new() -> (r: Self)
        ensures
            r.bank_name@.len() == 0 && r.account_number@.len() == 0 && r.principal@.len() == 0,
            r.interest_rate@.len() == 0 && r.spread@.len() == 0 && r.origination_date@.len() == 0,
            r.first_payment_date@.len() == 0 && r.num_payments@.len() == 0,
            r.monthly_payment@.len() == 0 && r.maturity_date@.len() == 0,
            r.currency@ == "ILS"@,
            r.loan_type == LoanType::ShirBased,
            r.current_field == 0,
            r.validation_error is None,
    {
        LoanEntryState {
            bank_name: String::new(),
            account_number: String::new(),
            loan_type: LoanType::ShirBased,
            principal: String::new(),
            interest_rate: String::new(),
            spread: String::new(),
            origination_date: String::new(),
            first_payment_date: String::new(),
            num_payments: String::new(),
            currency: copy_str("ILS"),
            monthly_payment: String::new(),
            maturity_date: String::new(),
            current_field: 0,
            validation_error: None,
        }
    }

    /// Switch between SHIR-based and CPI-linked.
    pub fn toggle_loan_type(&mut self)
        ensures
            final(self).loan_type == match old(self).loan_type {
                LoanType::ShirBased => LoanType::CpiLinked,
                LoanType::CpiLinked => LoanType::ShirBased,
            },
            final(self).current_field == old(self).current_field,
            final(self).validation_error == old(self).validation_error,
            *final(self) == (LoanEntryState { loan_type: final(self).loan_type, ..*old(self) }),
    {
        self.loan_type = match self.loan_type {
            LoanType::ShirBased => LoanType::CpiLinked,
            LoanType::CpiLinked => LoanType::ShirBased,
        };
    }

    /// Whether every required field is filled in and numeric where it must be.
    pub fn is_complete(&self) -> (r: bool)
        ensures
            r == spec_loan_complete(*self),
    {
        self.bank_name.unicode_len() > 0 && self.account_number.unicode_len() > 0
            && self.principal.unicode_len() > 0 && is_float_text(self.principal.as_str())
            && self.interest_rate.unicode_len() > 0 && is_float_text(self.interest_rate.as_str())
            && self.origination_date.unicode_len() > 0 && self.first_payment_date.unicode_len() > 0
            && self.num_payments.unicode_len() > 0 && parse_i32(self.num_payments.as_str()).is_some()
    }
}

/// Latest activity of one live market-data source.
#[derive(Debug)]
pub struct MarketDataSourceMeta {
    pub source: String,
    pub priority: u32,
    pub last_tick_at: Instant,
}

impl MarketDataSourceMeta {
    /// A source seen just now.
    pub fn new(source: &str, priority: u32) -> (r: Self)
        ensures
            r.source@ == source@,
            r.priority == priority,
    {
        MarketDataSourceMeta { source: copy_str(source), priority, last_tick_at: instant_now() }
    }

    /// Whole seconds since the source was last seen.
    pub fn age_secs(&self) -> (r: u64)
        ensures
            r <= u64::MAX / 1000,
    {
        instant_elapsed_millis(&self.last_tick_at) / 1000
    }

    /// Whether the source was seen within `ttl_secs` (its age read from the clock).
    pub fn is_fresh(&self, ttl_secs: u64) -> (r: bool)
        ensures
            ttl_secs >= u64::MAX / 1000 ==> r,
    {
        self.age_secs() <= ttl_secs
    }
}

/// Outcome of a command, as shown in the status area.
#[derive(Debug, Clone, Copy, PartialEq, Eq, Structural)]
pub enum CommandStatus {
    Accepted,
    Completed,
    Failed,
}

/// Latest command state shown in the TUI status area.
#[derive(Debug, Clone)]
pub struct CommandStatusView {
    pub command_id: Option<String>,
    pub issued_at: Option<String>,
    pub action: String,
    pub status: CommandStatus,
    pub message: Option<String>,
    pub error: Option<String>,
    /// When false, a failure is shown in the status bar only (no error toast).
    pub toast_on_failure: bool,
}

/// Explanation given when an order or strategy control is pressed in exploration mode.
pub const DISABLED_CONTROL_MESSAGE: &'static str =
    "Order and strategy-run controls are off in exploration mode; inspect data and settings as usual.";

impl CommandStatusView {
    /// A failed local command.
    pub fn failure(action: &str, error: &str) -> (r: Self)
        ensures
            r.action@ == action@,
            r.status == CommandStatus::Failed,
            r.message is None,
            (r.error matches Some(e) && e@ == error@),
            r.command_id is None && r.issued_at is None,
            r.toast_on_failure,
    {
        CommandStatusView {
            command_id: None,
            issued_at: None,
            action: copy_str(action),
            status: CommandStatus::Failed,
            message: None,
            error: Some(copy_str(error)),
            toast_on_failure: true,
        }
    }

    /// A control that exploration mode turns off: failed, explained, without a toast.
    pub fn disabled(action: &str) -> (r: Self)
        ensures
            r.action@ == action@,
            r.status == CommandStatus::Failed,
            r.message is None,
            (r.error matches Some(e) && e@ == DISABLED_CONTROL_MESSAGE@),
            r.command_id is None && r.issued_at is None,
            !r.toast_on_failure,
    {
        CommandStatusView {
            command_id: None,
            issued_at: None,
            action: copy_str(action),
            status: CommandStatus::Failed,
            message: None,
            error: Some(copy_str(DISABLED_CONTROL_MESSAGE)),
            toast_on_failure: false,
        }
    }

    /// A completed local command with a message.
    pub fn success(action: &str, message: &str) -> (r: Self)
        ensures
            r.action@ == action@,
            r.status == CommandStatus::Completed,
            (r.message matches Some(m) && m@ == message@),
            r.error is None,
            r.command_id is None && r.issued_at is None,
            r.toast_on_failure,
    {
        CommandStatusView {
            command_id: None,
            issued_at: None,
            action: copy_str(action),
            status: CommandStatus::Completed,
            message: Some(copy_str(message)),
            error: None,
            toast_on_failure: true,
        }
    }
}

/// What the detail overlay shows: a row of one of the lists, by its position in the list
/// as displayed, or the fundamentals fetched for a symbol.
#[derive(Debug, Clone, PartialEq, Eq)]
pub enum DetailPopup {
    Order(usize),
    Position(usize),
    Scenario(usize),
    YieldPoint(usize),
    FmpSymbol(String),
}

/// Focus inside the Settings tab.
#[derive(Debug, Clone, Copy, PartialEq, Eq, Structural)]
pub enum SettingsSection {
    Health,
    Config,
    Symbols,
    Sources,
    Alpaca,
}

/// Focus inside Settings → Health.
#[derive(Debug, Clone, Copy, PartialEq, Eq, Structural)]
pub enum SettingsHealthFocus {
    Transport,
    Services,
}

/// Next Settings section in the cycle Health → Config → Symbols → Sources → Alpaca.
pub open spec fn spec_section_next(s: SettingsSection) -> SettingsSection {
    match s {
        SettingsSection::Health => SettingsSection::Config,
        SettingsSection::Config => SettingsSection::Symbols,
        SettingsSection::Symbols => SettingsSection::Sources,
        SettingsSection::Sources => SettingsSection::Alpaca,
        SettingsSection::Alpaca => SettingsSection::Health,
    }
}

/// Previous Settings section in the same cycle.
pub open spec fn spec_section_prev(s: SettingsSection) -> SettingsSection {
    match s {
        SettingsSection::Health => SettingsSection::Alpaca,
        SettingsSection::Config => SettingsSection::Health,
        SettingsSection::Symbols => SettingsSection::Config,
        SettingsSection::Sources => SettingsSection::Symbols,
        SettingsSection::Alpaca => SettingsSection::Sources,
    }
}

impl SettingsSection {
    /// The following section (see `spec_section_next`).
    pub fn next(self) -> (r: SettingsSection)
        ensures
            r == spec_section_next(self),
    {
        match self {
            SettingsSection::Health => SettingsSection::Config,
            SettingsSection::Config => SettingsSection::Symbols,
            SettingsSection::Symbols => SettingsSection::Sources,
            SettingsSection::Sources => SettingsSection::Alpaca,
            SettingsSection::Alpaca => SettingsSection::Health,
        }
    }

    /// The preceding section (see `spec_section_prev`).
    pub fn prev(self) -> (r: SettingsSection)
        ensures
            r == spec_section_prev(self),
    {
        match self {
            SettingsSection::Health => SettingsSection::Alpaca,
            SettingsSection::Config => SettingsSection::Health,
            SettingsSection::Symbols => SettingsSection::Config,
            SettingsSection::Sources => SettingsSection::Symbols,
            SettingsSection::Alpaca => SettingsSection::Sources,
        }
    }
}

impl SettingsHealthFocus {
    /// The other Health sub-focus (the two alternate).
    pub fn prev(self) -> (r: SettingsHealthFocus)
        ensures
            r != self,
    {
        match self {
            SettingsHealthFocus::Transport => SettingsHealthFocus::Services,
            SettingsHealthFocus::Services => SettingsHealthFocus::Transport,
        }
    }
}

/// Moving to the next Settings section and back returns to where one started.
pub proof fn law_section_next_prev_inverse(s: SettingsSection)
    ensures
        spec_section_prev(spec_section_next(s)) == s,
        spec_section_next(spec_section_prev(s)) == s,
{
}

/// API credentials editable from Settings.
#[derive(Debug, Clone, Copy, PartialEq, Eq, Structural)]
pub enum CredentialKey {
    AlpacaPaperApiKeyId,
    AlpacaPaperSecretKey,
    AlpacaLiveApiKeyId,
    AlpacaLiveSecretKey,
    FmpApiKey,
    PolygonApiKey,
    TaseApiKey,
    FredApiKey,
}

/// Rows of the Settings → Alpaca credential table.
pub const ALPACA_CREDENTIAL_ROW_COUNT: usize = 4;
/// Rows of the Settings → Data sources table.
pub const SOURCES_TABLE_ROW_COUNT: usize = 9;

/// Credential edited from a row of the Alpaca table.
pub open spec fn spec_alpaca_key_for_row(row: int) -> Option<CredentialKey> {
    if row == 0 {
        Some(CredentialKey::AlpacaPaperApiKeyId)
    } else if row == 1 {
        Some(CredentialKey::AlpacaPaperSecretKey)
    } else if row == 2 {
        Some(CredentialKey::AlpacaLiveApiKeyId)
    } else if row == 3 {
        Some(CredentialKey::AlpacaLiveSecretKey)
    } else {
        None
    }
}

/// Credential edited from a row of the Data sources table (rows without a key give none).
pub open spec fn spec_sources_key_for_row(row: int) -> Option<CredentialKey> {
    if row == 1 {
        Some(CredentialKey::FmpApiKey)
    } else if row == 3 {
        Some(CredentialKey::PolygonApiKey)
    } else if row == 4 {
        Some(CredentialKey::TaseApiKey)
    } else if row == 5 {
        Some(CredentialKey::FredApiKey)
    } else {
        None
    }
}

/// Credential behind row `row` of the Alpaca table.
pub fn alpaca_credential_key_for_row(row: usize) -> (r: Option<CredentialKey>)
    ensures
        r == spec_alpaca_key_for_row(row as int),
{
    match row {
        0 => Some(CredentialKey::AlpacaPaperApiKeyId),
        1 => Some(CredentialKey::AlpacaPaperSecretKey),
        2 => Some(CredentialKey::AlpacaLiveApiKeyId),
        3 => Some(CredentialKey::AlpacaLiveSecretKey),
        _ => None,
    }
}

/// Credential behind row `row` of the Data sources table.
pub fn credential_key_for_sources_row(row: usize) -> (r: Option<CredentialKey>)
    ensures
        r == spec_sources_key_for_row(row as int),
{
    match row {
        1 => Some(CredentialKey::FmpApiKey),
        3 => Some(CredentialKey::PolygonApiKey),
        4 => Some(CredentialKey::TaseApiKey),
        5 => Some(CredentialKey::FredApiKey),
        _ => None,
    }
}

/// Which outside channels are wired (a worker listens on them).
#[derive(Debug, Clone, Copy)]
pub struct Wiring {
    pub yield_refresh: bool,
    pub loans_fetch: bool,
    pub loan_create: bool,
    pub loan_bulk_import: bool,
    pub fmp_fetch: bool,
    pub discount_bank_fetch: bool,
}


/// Key sent to the log widget.
#[derive(Debug, Clone, Copy, PartialEq, Eq, Structural)]
pub enum LogWidgetKey {
    Up,
    Down,
    PrevPage,
    NextPage,
    Plus,
    Minus,
    Hide,
    Escape,
}

/// Key sent to the tree panel.
#[derive(Debug, Clone, Copy, PartialEq, Eq, Structural)]
pub enum TreeKey {
    Up,
    Down,
    Left,
    Right,
    Toggle,
}

/// Outside work an input rule asks the caller to do, in order.
#[derive(Debug, Clone)]
pub enum Effect {
    /// Build the tree panel items if they are not built yet.
    InitTreePanel,
    /// Show the cached yield curve of the selected watchlist symbol.
    SyncYieldCurve,
    /// Send a loans list request; report delivery with `App::loans_fetch_sent`.
    SendLoansFetch,
    /// Send a Discount Bank request; report delivery with `App::discount_bank_fetch_sent`.
    SendDiscountBankFetch,
    /// Publish a yield refresh request; report delivery with `App::yield_refresh_sent`.
    SendYieldRefresh,
    /// Send a bulk import of the loans file at this path; report delivery with
    /// `App::bulk_import_sent`.
    SendBulkImport(String),
    /// Build a loan record from this completed form (maturity date and monthly payment
    /// recomputed) and send it.
    SendLoanRecord(LoanEntryState),
    /// Recompute the open loan form's maturity date and monthly payment.
    RecomputeLoanDerived,
    /// Fetch quote and fundamentals for the selected Dashboard or Positions symbol.
    FetchFmpForSelection,
    /// Open the selected Positions row: toggle a combo or show the position (and fetch
    /// greeks for an option).
    OpenPositionDetail,
    /// Refresh the Charts search results for the current query.
    UpdateChartSearchResults,
    /// Save the Charts search history.
    SaveChartSearchHistory,
    /// Send a key to the log widget.
    LogWidget(LogWidgetKey),
    /// Set the log level shown in the Logs tab.
    SetLogLevel(LevelFilter),
    /// Send a key to the tree panel.
    Tree(TreeKey),
    /// Store (non-empty value) or delete (empty value) a credential.
    SaveCredential(CredentialKey, String),
    /// Delete a credential.
    DeleteCredential(CredentialKey),
    /// Load a credential's current value into the edit buffer.
    LoadCredential(CredentialKey),
    /// Re-apply the configuration's positions sort to the current snapshot.
    CyclePositionsSort,
    /// Clamp the Orders selection to the orders left after the filter changed (see
    /// `ScrollableTableState::clamp_to_len`).
    ClampOrdersSelection,
}

/// One manual refresh tracked in the task list; times are milliseconds since the Unix
/// epoch.
#[derive(Debug, Clone)]
pub struct RefreshTask {
    pub id: u64,
    pub label: String,
    pub triggered_at_ms: i64,
    pub completed_at_ms: Option<i64>,
    pub status: RefreshTaskStatus,
}

/// Maximum number of refresh tasks kept (newest first).
pub const MAX_REFRESH_TASKS: usize = 8;

/// Interaction state of the terminal UI.
pub struct App {
    /// Configuration in effect (file/env configuration with in-TUI overrides applied).
    pub config: TuiConfig,
    /// Latest file/env configuration, before in-TUI overrides.
    pub base_config: TuiConfig,
    pub needs_redraw: bool,
    pub dirty_flags: DirtyFlags,
    pub active_tab: Tab,
    /// Order filter text (filters orders by symbol, status or side).
    pub order_filter: String,
    /// True while the Orders filter input mode is active.
    pub order_filter_active: bool,
    /// Level shown in the Logs title.
    pub log_display_level: LevelFilter,
    pub should_quit: bool,
    pub app_mode: AppMode,
    pub last_command_status: Option<CommandStatusView>,
    pub toast_manager: ToastManager,
    pub command_palette: CommandPalette,
    pub show_help: bool,
    pub show_log_panel: bool,
    pub show_tree_panel: bool,
    pub detail_popup: Option<DetailPopup>,
    /// Config validation hint shown in the status bar when set.
    pub config_warning: Option<String>,
    pub split_pane: bool,
    pub positions_table: ScrollableTableState,
    pub positions_combo_view: bool,
    pub orders_table: ScrollableTableState,
    pub symbol_for_chart: String,
    pub chart_search_input: String,
    /// Searched chart symbols, newest first.
    pub chart_search_history: VecDeque<String>,
    pub chart_search_visible: bool,
    pub chart_search_selected: usize,
    pub chart_search_results: Vec<String>,
    /// Field versus results-list focus of the Charts search overlay.
    pub chart_search_interact: FieldListFocus,
    /// Field versus table focus of the Orders filter.
    pub orders_filter_interact: FieldListFocus,
    /// When the search results were last computed (ms since the Unix epoch).
    pub chart_search_last_search_ms: u64,
    /// Least time between two computations of the search results (ms).
    pub chart_search_debounce_ms: u64,
    /// State of the NATS connection.
    pub nats_status: ConnectionStatus,
    /// Whether the NYSE regular session is open, once checked.
    pub market_open: Option<bool>,
    /// Ticks since the market session was last checked.
    pub market_open_tick: u32,
    /// Charts pill navigation: active row (0 = expiry, 1 = strike width).
    pub chart_pill_row: usize,
    pub chart_expiry_index: usize,
    pub chart_strike_index: usize,
    pub alerts_scroll: ScrollableTableState,
    pub dashboard_table: ScrollableTableState,
    pub scenarios_table: ScrollableTableState,
    pub scenarios_dte_center: i32,
    pub scenarios_dte_half_width: i32,
    /// Strike width filter: `None` shows all widths.
    pub scenarios_strike_width_filter: Option<u32>,
    pub yield_symbol_index: usize,
    pub yield_curve_table: ScrollableTableState,
    /// In-Settings watchlist override; `None` uses the configured watchlist.
    pub watchlist_override: Option<Vec<String>>,
    pub settings_section: SettingsSection,
    pub settings_health_focus: SettingsHealthFocus,
    pub settings_symbol_index: usize,
    /// Buffer while adding a symbol or editing a config value.
    pub settings_add_symbol_input: Option<String>,
    /// Config key being edited (with its buffer in `settings_add_symbol_input`).
    pub settings_edit_config_key: Option<String>,
    pub config_overrides: ConfigOverrides,
    pub settings_config_key_index: usize,
    pub settings_alpaca_row: usize,
    pub settings_sources_row: usize,
    pub settings_credential_edit_key: Option<CredentialKey>,
    pub settings_credential_buffer: Option<String>,
    pub yield_refresh_pending: bool,
    pub yield_tasks: Vec<RefreshTask>,
    pub yield_task_id_counter: u64,
    /// Loans list state: the number of loans loaded, or the fetch error; `None` before the
    /// first answer.
    pub loans_list: Option<Result<usize, String>>,
    pub loans_fetch_pending: bool,
    pub loans_bulk_import_inflight: bool,
    pub loans_scroll: usize,
    pub loan_entry: Option<LoanEntryState>,
    /// Bulk-import file path buffer; `None` when not editing.
    pub loan_import_path: Option<String>,
    pub discount_bank_fetch_pending: bool,
    /// Discount Bank transactions state: how many were loaded, or the fetch error.
    pub discount_bank_transactions: Option<Result<usize, String>>,
    pub discount_bank_scroll: usize,
    /// Tabs of the workspace visible on screen (empty when none), in focus order.
    pub visible_workspace_tabs: Vec<Tab>,
    pub wiring: Wiring,
}

/// Input surface of an app state: the command palette first, then overlays, then input
/// buffers, then panels, else normal navigation.
pub open spec fn spec_input_mode(a: &App) -> InputMode {
    if a.command_palette.visible {
        InputMode::CommandPalette
    } else if a.show_help {
        InputMode::Help
    } else if a.detail_popup is Some {
        InputMode::DetailPopup
    } else if a.settings_credential_buffer is Some {
        InputMode::SettingsCredentialEntry
    } else if a.settings_add_symbol_input is Some {
        if a.settings_edit_config_key is Some {
            InputMode::SettingsEditConfig
        } else {
            InputMode::SettingsAddSymbol
        }
    } else if a.loan_entry is Some {
        InputMode::LoanForm
    } else if a.loan_import_path is Some {
        InputMode::LoanImportPath
    } else if a.chart_search_visible {
        InputMode::ChartSearch
    } else if a.order_filter_active {
        InputMode::OrdersFilter
    } else if a.show_log_panel {
        InputMode::LogPanel
    } else if a.show_tree_panel {
        InputMode::TreePanel
    } else {
        InputMode::Normal
    }
}

/// Mode of an input surface: typing surfaces edit, overlays and panels view, else
/// navigation.
pub open spec fn spec_mode_for_input(m: InputMode) -> AppMode {
    match m {
        InputMode::SettingsEditConfig | InputMode::SettingsAddSymbol
        | InputMode::SettingsCredentialEntry | InputMode::LoanForm | InputMode::LoanImportPath
        | InputMode::ChartSearch | InputMode::OrdersFilter | InputMode::CommandPalette => AppMode::Edit,
        InputMode::Help | InputMode::DetailPopup | InputMode::LogPanel | InputMode::TreePanel => AppMode::View,
        InputMode::Normal => AppMode::Navigation,
    }
}

/// Text of the toast announcing a mode change.
pub open spec fn spec_mode_change_message(from: AppMode, to: AppMode) -> Seq<char> {
    "Mode "@ + spec_mode_label(from) + " → "@ + spec_mode_label(to)
}

/// `after` is `before` with `msg` pushed at `level` at some time.
#[verifier::opaque]
pub open spec fn spec_toast_pushed(before: &ToastManager, after: &ToastManager, msg: Seq<char>, level: ToastLevel) -> bool {
    exists|now: u64| #[trigger] spec_pushed(before@, after@, msg, level, now)
}

/// Push a toast and mark the overlay for redraw, on the parts of the state involved.
pub fn notify(toasts: &mut ToastManager, dirty: &mut DirtyFlags, needs_redraw: &mut bool, msg: &str, level: ToastLevel)
    ensures
        spec_toast_pushed(old(toasts), final(toasts), msg@, level),
        *final(dirty) == (DirtyFlags { overlay: true, ..*old(dirty) }),
        *final(needs_redraw),
{
    proof {
        reveal(spec_toast_pushed);
    }
    toasts.push(msg, level);
    dirty.mark_overlay();
    *needs_redraw = true;
}

impl App {
    /// The starting state for `config`: Dashboard tab, no overlay, nothing pending, split
    /// pane as configured and the config hint computed.
    pub fn new(config: TuiConfig) -> (r: Self)
        ensures
            r.config@ == config@,
            r.base_config@ == config@,
            r.split_pane == config.split_pane,
            match r.config_warning {
                Some(w) => spec_config_hint(config@) == Some(w@),
                None => spec_config_hint(config@) is None,
            },
            r.active_tab == Tab::Dashboard,
            r.app_mode == AppMode::Navigation,
            r.needs_redraw,
            spec_input_mode(&r) == InputMode::Normal,
            !r.should_quit,
            !r.loans_fetch_pending && !r.discount_bank_fetch_pending && !r.yield_refresh_pending,
            r.loans_list is None,
            r.chart_strike_index == 2,
            r.scenarios_dte_center == 4 && r.scenarios_dte_half_width == 2,
            r.settings_section == SettingsSection::Health,
            r.settings_health_focus == SettingsHealthFocus::Transport,
            r.log_display_level == LevelFilter::Debug,
    {
        let config_warning = validate_config_hint(&config);
        let split_pane = config.split_pane;
        let base_config = config.clone_config();
        App {
            config,
            base_config,
            needs_redraw: true,
            dirty_flags: DirtyFlags::new(),
            active_tab: Tab::Dashboard,
            order_filter: String::new(),
            order_filter_active: false,
            log_display_level: LevelFilter::Debug,
            should_quit: false,
            app_mode: AppMode::Navigation,
            last_command_status: None,
            toast_manager: ToastManager::new(),
            command_palette: CommandPalette::new(),
            show_help: false,
            show_log_panel: false,
            show_tree_panel: false,
            detail_popup: None,
            config_warning,
            split_pane,
            positions_table: ScrollableTableState::new(),
            positions_combo_view: false,
            orders_table: ScrollableTableState::new(),
            symbol_for_chart: String::new(),
            chart_search_input: String::new(),
            chart_search_history: VecDeque::new(),
            chart_search_visible: false,
            chart_search_selected: 0,
            chart_search_results: Vec::new(),
            chart_search_interact: FieldListFocus::new(),
            orders_filter_interact: FieldListFocus::new(),
            chart_search_last_search_ms: 0,
            chart_search_debounce_ms: 300,
            nats_status: ConnectionStatus::new(ConnectionState::Starting, "Connecting to NATS"),
            market_open: None,
            market_open_tick: 0,
            chart_pill_row: 0,
            chart_expiry_index: 0,
            chart_strike_index: 2,
            alerts_scroll: ScrollableTableState::new(),
            dashboard_table: ScrollableTableState::new(),
            scenarios_table: ScrollableTableState::new(),
            scenarios_dte_center: 4,
            scenarios_dte_half_width: 2,
            scenarios_strike_width_filter: None,
            yield_symbol_index: 0,
            yield_curve_table: ScrollableTableState::new(),
            watchlist_override: None,
            settings_section: SettingsSection::Health,
            settings_health_focus: SettingsHealthFocus::Transport,
            settings_symbol_index: 0,
            settings_add_symbol_input: None,
            settings_edit_config_key: None,
            config_overrides: ConfigOverrides::new(),
            settings_config_key_index: 0,
            settings_alpaca_row: 0,
            settings_sources_row: 0,
            settings_credential_edit_key: None,
            settings_credential_buffer: None,
            yield_refresh_pending: false,
            yield_tasks: Vec::new(),
            yield_task_id_counter: 0,
            loans_list: None,
            loans_fetch_pending: false,
            loans_bulk_import_inflight: false,
            loans_scroll: 0,
            loan_entry: None,
            loan_import_path: None,
            discount_bank_fetch_pending: false,
            discount_bank_transactions: None,
            discount_bank_scroll: 0,
            visible_workspace_tabs: Vec::new(),
            wiring: Wiring {
                yield_refresh: false,
                loans_fetch: false,
                loan_create: false,
                loan_bulk_import: false,
                fmp_fetch: false,
                discount_bank_fetch: false,
            },
        }
    }

    /// Where keyboard input goes now (see `spec_input_mode`).
    pub fn input_mode(&self) -> (r: InputMode)
        ensures
            r == spec_input_mode(self),
    {
        if self.command_palette.visible {
            InputMode::CommandPalette
        } else if self.show_help {
            InputMode::Help
        } else if self.detail_popup.is_some() {
            InputMode::DetailPopup
        } else if self.settings_credential_buffer.is_some() {
            InputMode::SettingsCredentialEntry
        } else if self.settings_add_symbol_input.is_some() {
            if self.settings_edit_config_key.is_some() {
                InputMode::SettingsEditConfig
            } else {
                InputMode::SettingsAddSymbol
            }
        } else if self.loan_entry.is_some() {
            InputMode::LoanForm
        } else if self.loan_import_path.is_some() {
            InputMode::LoanImportPath
        } else if self.chart_search_visible {
            InputMode::ChartSearch
        } else if self.order_filter_active {
            InputMode::OrdersFilter
        } else if self.show_log_panel {
            InputMode::LogPanel
        } else if self.show_tree_panel {
            InputMode::TreePanel
        } else {
            InputMode::Normal
        }
    }

    /// Mode of an input surface (see `spec_mode_for_input`).
    pub fn app_mode_for_input_mode(input_mode: InputMode) -> (r: AppMode)
        ensures
            r == spec_mode_for_input(input_mode),
    {
        match input_mode {
            InputMode::SettingsEditConfig | InputMode::SettingsAddSymbol
            | InputMode::SettingsCredentialEntry | InputMode::LoanForm | InputMode::LoanImportPath
            | InputMode::ChartSearch | InputMode::OrdersFilter | InputMode::CommandPalette => AppMode::Edit,
            InputMode::Help | InputMode::DetailPopup | InputMode::LogPanel | InputMode::TreePanel => AppMode::View,
            InputMode::Normal => AppMode::Navigation,
        }
    }

    /// Mark everything for redraw.
    pub fn mark_dirty(&mut self)
        ensures
            final(self).needs_redraw,
            final(self).dirty_flags == DirtyFlags::all_dirty(),
            final(self).toast_manager@ == old(self).toast_manager@,
            *final(self) == (App { needs_redraw: true, dirty_flags: DirtyFlags::all_dirty(), ..*old(self) }),
    {
        self.needs_redraw = true;
        self.dirty_flags.mark_all();
    }

    /// Request a redraw and let `update` record which regions changed.
    pub fn mark_regions<F: FnOnce(&mut DirtyFlags)>(&mut self, update: F)
        requires
            forall|d: &mut DirtyFlags| call_requires(update, (d,)),
        ensures
            final(self).needs_redraw,
            *final(self) == (App { needs_redraw: true, dirty_flags: final(self).dirty_flags, ..*old(self) }),
            exists|d: &mut DirtyFlags|
                *d == old(self).dirty_flags && *final(d) == final(self).dirty_flags && call_ensures(
                    update,
                    (d,),
                    (),
                ),
    {
        self.needs_redraw = true;
        update(&mut self.dirty_flags);
    }

    /// Push a toast and mark the overlay for redraw.
    pub fn push_toast(&mut self, msg: &str, level: ToastLevel)
        ensures
            spec_toast_pushed(&old(self).toast_manager, &final(self).toast_manager, msg@, level),
            final(self).needs_redraw,
            final(self).dirty_flags == (DirtyFlags { overlay: true, ..old(self).dirty_flags }),
            *final(self) == (App { toast_manager: final(self).toast_manager,
                dirty_flags: final(self).dirty_flags, needs_redraw: true, ..*old(self) }),
    {
        notify(&mut self.toast_manager, &mut self.dirty_flags, &mut self.needs_redraw, msg, level);
    }

    /// Follow the input surface with the app mode; a change is announced with an info
    /// toast `Mode <from> → <to>` and marks the status bar.
    pub fn update_app_mode(&mut self)
        ensures
            final(self).app_mode == spec_mode_for_input(spec_input_mode(old(self))),
            final(self).app_mode != old(self).app_mode ==> spec_toast_pushed(
                &old(self).toast_manager,
                &final(self).toast_manager,
                spec_mode_change_message(old(self).app_mode, final(self).app_mode),
                ToastLevel::Info,
            ) && final(self).dirty_flags.status_bar && final(self).dirty_flags.overlay,
            final(self).app_mode == old(self).app_mode ==> final(self).toast_manager@ == old(self).toast_manager@,
    {
        let next = Self::app_mode_for_input_mode(self.input_mode());
        if next != self.app_mode {
            let a = concat("Mode ", self.app_mode.label());
            let b = concat(a.as_str(), " → ");
            let msg = concat(b.as_str(), next.label());
            self.push_toast(msg.as_str(), ToastLevel::Info);
            self.dirty_flags.mark_status_bar();
            self.needs_redraw = true;
        }
        self.app_mode = next;
    }

    /// Record the latest command outcome for the status and hint bars; a failure that
    /// asks for it is also shown as a toast (the error as an error toast, else the
    /// message as a warning).
    pub fn set_command_status(&mut self, status: CommandStatusView)
        ensures
            final(self).last_command_status == Some(status),
            final(self).needs_redraw,
            final(self).dirty_flags.hint_bar && final(self).dirty_flags.status_bar,
            *final(self) == (App { toast_manager: final(self).toast_manager,
                dirty_flags: final(self).dirty_flags, needs_redraw: true,
                last_command_status: Some(status), ..*old(self) }),
            ({
                let notify = status.toast_on_failure && status.status == CommandStatus::Failed;
                if notify && status.error is Some {
                    spec_toast_pushed(&old(self).toast_manager, &final(self).toast_manager,
                        status.action@ + " — "@ + status.error->0@, ToastLevel::Error)
                } else if notify && status.message is Some {
                    spec_toast_pushed(&old(self).toast_manager, &final(self).toast_manager,
                        status.action@ + " — "@ + status.message->0@, ToastLevel::Warning)
                } else {
                    final(self).toast_manager@ == old(self).toast_manager@
                }
            }),
    {
        if status.toast_on_failure && status.status == CommandStatus::Failed {
            if let Some(err) = &status.error {
                let a = concat(status.action.as_str(), " — ");
                let msg = concat(a.as_str(), err.as_str());
                self.push_toast(msg.as_str(), ToastLevel::Error);
            } else if let Some(m) = &status.message {
                let a = concat(status.action.as_str(), " — ");
                let msg = concat(a.as_str(), m.as_str());
                self.push_toast(msg.as_str(), ToastLevel::Warning);
            }
        }
        self.last_command_status = Some(status);
        self.dirty_flags.mark_hint_bar();
        self.dirty_flags.mark_status_bar();
        self.needs_redraw = true;
    }

    /// Record a successful local command.
    pub fn command_success(&mut self, action: &str, message: &str)
        ensures
            final(self).last_command_status matches Some(s) && s.action@ == action@
                && s.status == CommandStatus::Completed && (s.message matches Some(m) && m@ == message@),
            final(self).toast_manager@ == old(self).toast_manager@,
            final(self).dirty_flags.hint_bar && final(self).dirty_flags.status_bar,
            *final(self) == (App { toast_manager: final(self).toast_manager,
                dirty_flags: final(self).dirty_flags, needs_redraw: true,
                last_command_status: final(self).last_command_status, ..*old(self) }),
    {
        self.set_command_status(CommandStatusView::success(action, message));
    }

    /// Record a control that exploration mode turns off.
    pub fn command_disabled(&mut self, action: &str)
        ensures
            final(self).last_command_status matches Some(s) && s.action@ == action@
                && s.status == CommandStatus::Failed && !s.toast_on_failure,
            final(self).toast_manager@ == old(self).toast_manager@,
            final(self).dirty_flags.hint_bar && final(self).dirty_flags.status_bar,
            *final(self) == (App { toast_manager: final(self).toast_manager,
                dirty_flags: final(self).dirty_flags, needs_redraw: true,
                last_command_status: final(self).last_command_status, ..*old(self) }),
    {
        self.set_command_status(CommandStatusView::disabled(action));
    }

    /// Effective watchlist: the override if set, else the configured one.
    pub fn watchlist(&self) -> (r: &Vec<String>)
        ensures
            r@ == match self.watchlist_override {
                Some(w) => w@,
                None => self.config.watchlist@,
            },
    {
        match &self.watchlist_override {
            Some(w) => w,
            None => &self.config.watchlist,
        }
    }

    /// Config key and value shown at `index` in the Settings config list.
    pub fn config_key_value_at(&self, index: usize) -> (r: Option<(String, String)>)
        ensures
            match (r, spec_config_row(self.config@, index as int)) {
                (Some(p), Some(q)) => p.0@ == q.0 && p.1@ == q.1,
                (None, None) => true,
                _ => false,
            },
    {
        config_key_value_at(&self.config, index)
    }

    /// Whether a loans fetch should be sent now: none is in flight and the channel is
    /// wired. After sending, report the outcome with `loans_fetch_sent`.
    pub fn request_loans_fetch(&self) -> (r: bool)
        ensures
            r == (!self.loans_fetch_pending && self.wiring.loans_fetch),
    {
        !self.loans_fetch_pending && self.wiring.loans_fetch
    }

    /// Whether a loans fetch should be sent now, only when no list was loaded yet.
    pub fn request_loans_fetch_if_uncached(&self) -> (r: bool)
        ensures
            r == (!(self.loans_list matches Some(Ok(_))) && !self.loans_fetch_pending && self.wiring.loans_fetch),
    {
        if let Some(Ok(_)) = &self.loans_list {
            return false;
        }
        self.request_loans_fetch()
    }

    /// Outcome of sending a loans fetch: a delivered request is now in flight.
    pub fn loans_fetch_sent(&mut self, delivered: bool)
        ensures
            *final(self) == (App { loans_fetch_pending: old(self).loans_fetch_pending || delivered, ..*old(self) }),
    {
        if delivered {
            self.loans_fetch_pending = true;
        }
    }

    /// Whether a Discount Bank fetch should be sent now: none is in flight and the
    /// channel is wired.
    pub fn request_discount_bank_fetch(&self) -> (r: bool)
        ensures
            r == (!self.discount_bank_fetch_pending && self.wiring.discount_bank_fetch),
    {
        !self.discount_bank_fetch_pending && self.wiring.discount_bank_fetch
    }

    /// Outcome of sending a Discount Bank fetch.
    pub fn discount_bank_fetch_sent(&mut self, delivered: bool)
        ensures
            *final(self) == (App { discount_bank_fetch_pending: old(self).discount_bank_fetch_pending || delivered,
                ..*old(self) }),
    {
        if delivered {
            self.discount_bank_fetch_pending = true;
        }
    }

    /// Whether a yield refresh should be published now: none is pending, the channel is
    /// wired and the configured watchlist is not empty.
    pub fn request_yield_fetch(&self) -> (r: bool)
        ensures
            r == (!self.yield_refresh_pending && self.wiring.yield_refresh && self.config.watchlist@.len() > 0),
    {
        !self.yield_refresh_pending && self.wiring.yield_refresh && self.config.watchlist.len() > 0
    }
}

} // verus!
