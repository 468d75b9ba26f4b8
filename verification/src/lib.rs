//! Verified core of the trading terminal UI: redraw bookkeeping, modes, tabs,
//! scrollable tables, toasts, the command palette, configuration handling,
//! key routing and the interaction state machine.

pub mod dirty_flags;
pub mod mode;
pub mod pane;
pub mod tab;
pub mod scrollable_table;
pub mod text;
pub mod expiry_buckets;
pub mod events;
pub mod clock;
pub mod feedback;
pub mod action;
pub mod discoverability;
pub mod parse;
pub mod config;
pub mod app_config;
pub mod circuit_breaker;
pub mod labels;
pub mod app;
pub mod keys;
pub mod input_tabs;
pub mod input_settings;
pub mod input_shell;
pub mod input_loans;
pub mod input_router;
pub mod input_views;
pub mod input;
pub mod handle;
pub mod updates;
pub mod focus;
pub mod hints;
pub mod mouse;
pub mod views;
pub mod orders;
pub mod sources;
pub mod market_hours;
pub mod status;
pub mod palette_law;
pub mod field_list_focus;
pub mod chrome_layout;
pub mod tui_interact;
pub mod candlestick;
pub mod positions;
pub mod colors;
pub mod order_rollup;
pub mod chart_history;
pub mod banner;
pub mod option_symbol;
pub mod loan_dates;
pub mod key_laws;
