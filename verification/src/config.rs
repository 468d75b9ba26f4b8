//! TUI configuration: defaults, the shared config file's values and environment
//! overrides, plus the normalization rules applied to each value.
//!
//! Reading the file and the environment happens outside this module; the values read
//! are handed in as `SharedConfigFile` and `EnvOverrides`.
use vstd::prelude::*;
use crate::parse::{parse_bool, parse_u64, spec_parse_bool, spec_parse_u64};
use crate::text::{
    copy_str, copy_strings, spec_ascii_lowercase, spec_split, spec_starts_with, spec_str_to_lowercase,
    spec_str_to_uppercase, spec_strip_suffix, spec_trim, spec_trim_end_char, split_char,
    str_eq, str_starts_with, strings_view, strip_suffix, to_ascii_lowercase, to_lowercase,
    to_uppercase, trim, trim_end_char,
};

verus! {

/// Default NATS server URL.
pub const DEFAULT_NATS_URL: &'static str = "nats://localhost:4222";
/// Default backend identifier.
pub const DEFAULT_BACKEND_ID: &'static str = "ib";
/// Default REST base URL.
pub const DEFAULT_REST_URL: &'static str = "http://localhost:9090";
/// Default watchlist (comma-separated).
pub const DEFAULT_WATCHLIST: &'static str = "SPX,XSP,NDX";
/// Default snapshot staleness threshold in seconds.
pub const DEFAULT_SNAPSHOT_TTL_SECS: u64 = 30;

/// Default interval of the benchmark-rate refresh, in seconds.
pub const DEFAULT_BENCHMARKS_REFRESH_SECS: u64 = 3600;
/// Default NATS key-value bucket holding the yield curves.
pub const DEFAULT_YIELD_KV_BUCKET: &'static str = "yield_curves";

/// Colour theme of the interface.
#[derive(Debug, Clone, Copy, PartialEq, Eq, Structural)]
pub enum TuiTheme {
    Default,
    HighContrast,
}

/// Order of the Positions table.
#[derive(Debug, Clone, Copy, PartialEq, Eq, Structural)]
pub enum PositionsSortMode {
    /// As the snapshot lists them.
    Default,
    /// By symbol.
    Symbol,
    /// By unrealized P&L.
    Pnl,
}

/// Setting value of a theme.
pub open spec fn spec_theme_value(t: TuiTheme) -> Seq<char> {
    match t {
        TuiTheme::Default => "default"@,
        TuiTheme::HighContrast => "high_contrast"@,
    }
}

/// The theme a setting value names (trimmed, case-insensitive), if any.
pub open spec fn spec_parse_theme(v: Seq<char>) -> Option<TuiTheme> {
    let w = spec_str_to_lowercase(spec_trim(v));
    if w == "default"@ {
        Some(TuiTheme::Default)
    } else if w == "high_contrast"@ {
        Some(TuiTheme::HighContrast)
    } else {
        None
    }
}

/// Setting value of a positions order.
pub open spec fn spec_sort_value(m: PositionsSortMode) -> Seq<char> {
    match m {
        PositionsSortMode::Default => "default"@,
        PositionsSortMode::Symbol => "symbol"@,
        PositionsSortMode::Pnl => "pnl"@,
    }
}

/// The positions order a setting value names (trimmed, case-insensitive), if any.
pub open spec fn spec_parse_sort(v: Seq<char>) -> Option<PositionsSortMode> {
    let w = spec_str_to_lowercase(spec_trim(v));
    if w == "default"@ {
        Some(PositionsSortMode::Default)
    } else if w == "symbol"@ {
        Some(PositionsSortMode::Symbol)
    } else if w == "pnl"@ {
        Some(PositionsSortMode::Pnl)
    } else {
        None
    }
}

/// The order after `m` in the cycle Default -> Symbol -> Pnl -> Default.
pub open spec fn spec_sort_next(m: PositionsSortMode) -> PositionsSortMode {
    match m {
        PositionsSortMode::Default => PositionsSortMode::Symbol,
        PositionsSortMode::Symbol => PositionsSortMode::Pnl,
        PositionsSortMode::Pnl => PositionsSortMode::Default,
    }
}

impl TuiTheme {
    /// The setting value of this theme (see `spec_theme_value`).
    pub fn as_setting_value(&self) -> (r: &'static str)
        ensures
            r@ == spec_theme_value(*self),
    {
        match self {
            TuiTheme::Default => "default",
            TuiTheme::HighContrast => "high_contrast",
        }
    }

    /// The theme a setting value names (see `spec_parse_theme`).
    pub fn parse_env(v: &str) -> (r: Option<TuiTheme>)
        ensures
            r == spec_parse_theme(v@),
    {
        let t = trim(v);
        let w = to_lowercase(t.as_str());
        proof {
            reveal_strlit("default");
            reveal_strlit("high_contrast");
        }
        if str_eq(w.as_str(), "default") {
            Some(TuiTheme::Default)
        } else if str_eq(w.as_str(), "high_contrast") {
            Some(TuiTheme::HighContrast)
        } else {
            None
        }
    }
}

impl PositionsSortMode {
    /// The setting value of this order (see `spec_sort_value`).
    pub fn as_setting_value(&self) -> (r: &'static str)
        ensures
            r@ == spec_sort_value(*self),
    {
        match self {
            PositionsSortMode::Default => "default",
            PositionsSortMode::Symbol => "symbol",
            PositionsSortMode::Pnl => "pnl",
        }
    }

    /// The order a setting value names (see `spec_parse_sort`).
    pub fn parse_env(v: &str) -> (r: Option<PositionsSortMode>)
        ensures
            r == spec_parse_sort(v@),
    {
        let t = trim(v);
        let w = to_lowercase(t.as_str());
        if str_eq(w.as_str(), "default") {
            Some(PositionsSortMode::Default)
        } else if str_eq(w.as_str(), "symbol") {
            Some(PositionsSortMode::Symbol)
        } else if str_eq(w.as_str(), "pnl") {
            Some(PositionsSortMode::Pnl)
        } else {
            None
        }
    }

    /// The next order in the cycle (see `spec_sort_next`).
    pub fn next(&self) -> (r: PositionsSortMode)
        ensures
            r == spec_sort_next(*self),
    {
        match self {
            PositionsSortMode::Default => PositionsSortMode::Symbol,
            PositionsSortMode::Symbol => PositionsSortMode::Pnl,
            PositionsSortMode::Pnl => PositionsSortMode::Default,
        }
    }
}

/// Abstract content of a configuration.
pub ghost struct TuiConfigView {
    pub nats_url: Seq<char>,
    pub backend_id: Seq<char>,
    pub rest_url: Seq<char>,
    pub watchlist: Seq<Seq<char>>,
    pub tick_ms: u64,
    pub rest_poll_ms: u64,
    pub rest_fallback: bool,
    pub snapshot_ttl_secs: u64,
    pub split_pane: bool,
    pub benchmarks_refresh_secs: u64,
    pub yield_kv_bucket: Seq<char>,
    pub positions_sort: PositionsSortMode,
    pub theme: TuiTheme,
}

/// TUI configuration.
#[derive(Debug, Clone)]
pub struct TuiConfig {
    /// NATS server URL (env: NATS_URL)
    pub nats_url: String,
    /// Backend identifier used as the snapshot topic suffix (env: BACKEND_ID)
    pub backend_id: String,
    /// REST base URL for fallback polling (env: REST_URL)
    pub rest_url: String,
    /// Symbols to highlight in the dashboard (env: WATCHLIST, comma-separated)
    pub watchlist: Vec<String>,
    /// UI redraw interval in milliseconds (env: TICK_MS)
    pub tick_ms: u64,
    /// Poll interval for REST fallback in milliseconds (env: REST_POLL_MS)
    pub rest_poll_ms: u64,
    /// Enable REST fallback when NATS is unavailable (env: REST_FALLBACK=1)
    pub rest_fallback: bool,
    /// Seconds before a snapshot is considered stale (env: SNAPSHOT_TTL_SECS)
    pub snapshot_ttl_secs: u64,
    /// Enable split-pane layout (env: SPLIT_PANE=1)
    pub split_pane: bool,
    /// Seconds between benchmark-rate refreshes (override: BENCHMARKS_REFRESH_SECS)
    pub benchmarks_refresh_secs: u64,
    /// NATS key-value bucket of the yield curves (override: NATS_KV_BUCKET)
    pub yield_kv_bucket: String,
    /// Order of the Positions table (override: TUI_POSITIONS_SORT)
    pub positions_sort: PositionsSortMode,
    /// Colour theme (override: TUI_THEME)
    pub theme: TuiTheme,
}

impl View for TuiConfig {
    type V = TuiConfigView;

    open spec fn view(&self) -> TuiConfigView {
        TuiConfigView {
            nats_url: self.nats_url@,
            backend_id: self.backend_id@,
            rest_url: self.rest_url@,
            watchlist: strings_view(self.watchlist@),
            tick_ms: self.tick_ms,
            rest_poll_ms: self.rest_poll_ms,
            rest_fallback: self.rest_fallback,
            snapshot_ttl_secs: self.snapshot_ttl_secs,
            split_pane: self.split_pane,
            benchmarks_refresh_secs: self.benchmarks_refresh_secs,
            yield_kv_bucket: self.yield_kv_bucket@,
            positions_sort: self.positions_sort,
            theme: self.theme,
        }
    }
}

/// Symbols trimmed and uppercased, empty ones dropped, order kept.
pub open spec fn spec_normalize_symbols(s: Seq<Seq<char>>) -> Seq<Seq<char>>
    decreases s.len(),
{
    if s.len() == 0 {
        Seq::empty()
    } else {
        let prev = spec_normalize_symbols(s.drop_last());
        let x = spec_str_to_uppercase(spec_trim(s.last()));
        if x.len() > 0 { prev.push(x) } else { prev }
    }
}

/// The symbols of a comma-separated watchlist.
pub open spec fn spec_parse_watchlist(v: Seq<char>) -> Seq<Seq<char>> {
    spec_normalize_symbols(spec_split(v, ','))
}

/// A REST base URL with surrounding whitespace and trailing slashes removed and a known
/// snapshot/API path suffix (`/api/v1/snapshot`, `/api/snapshot` or `/api`) stripped.
pub open spec fn spec_normalize_rest_base_url(v: Seq<char>) -> Seq<char> {
    let t = spec_trim_end_char(spec_trim(v), '/');
    if t.len() == 0 {
        Seq::empty()
    } else if spec_strip_suffix(t, "/api/v1/snapshot"@) is Some {
        spec_trim_end_char(spec_strip_suffix(t, "/api/v1/snapshot"@)->0, '/')
    } else if spec_strip_suffix(t, "/api/snapshot"@) is Some {
        spec_trim_end_char(spec_strip_suffix(t, "/api/snapshot"@)->0, '/')
    } else if spec_strip_suffix(t, "/api"@) is Some {
        spec_trim_end_char(spec_strip_suffix(t, "/api"@)->0, '/')
    } else {
        t
    }
}

/// The default configuration.
pub open spec fn spec_default_config() -> TuiConfigView {
    TuiConfigView {
        nats_url: DEFAULT_NATS_URL@,
        backend_id: DEFAULT_BACKEND_ID@,
        rest_url: DEFAULT_REST_URL@,
        watchlist: spec_parse_watchlist(DEFAULT_WATCHLIST@),
        tick_ms: 250,
        rest_poll_ms: 2000,
        rest_fallback: false,
        snapshot_ttl_secs: DEFAULT_SNAPSHOT_TTL_SECS,
        split_pane: false,
        benchmarks_refresh_secs: DEFAULT_BENCHMARKS_REFRESH_SECS,
        yield_kv_bucket: DEFAULT_YIELD_KV_BUCKET@,
        positions_sort: PositionsSortMode::Default,
        theme: TuiTheme::Default,
    }
}

/// Normalize a REST base URL (see `spec_normalize_rest_base_url`).
pub fn normalize_rest_base_url(value: &str) -> (r: String)
    ensures
        r@ == spec_normalize_rest_base_url(value@),
{
    let t0 = trim(value);
    let t = trim_end_char(t0.as_str(), '/');
    if t.unicode_len() == 0 {
        return String::new();
    }
    if let Some(x) = strip_suffix(t.as_str(), "/api/v1/snapshot") {
        return trim_end_char(x.as_str(), '/');
    }
    if let Some(x) = strip_suffix(t.as_str(), "/api/snapshot") {
        return trim_end_char(x.as_str(), '/');
    }
    if let Some(x) = strip_suffix(t.as_str(), "/api") {
        return trim_end_char(x.as_str(), '/');
    }
    t
}

/// Trim and uppercase each symbol, dropping empty ones.
pub fn normalize_symbols(symbols: &Vec<String>) -> (r: Vec<String>)
    ensures
        strings_view(r@) == spec_normalize_symbols(strings_view(symbols@)),
{
    let ghost sv = strings_view(symbols@);
    let mut out: Vec<String> = Vec::new();
    let mut i: usize = 0;
    while i < symbols.len()
        invariant
            sv == strings_view(symbols@),
            i <= symbols@.len(),
            strings_view(out@) == spec_normalize_symbols(sv.subrange(0, i as int)),
        decreases symbols@.len() - i,
    {
        let t = trim(symbols[i].as_str());
        let u = to_uppercase(t.as_str());
        assert(sv.subrange(0, i + 1).drop_last() =~= sv.subrange(0, i as int));
        assert(sv.subrange(0, i + 1).last() == symbols@[i as int]@);
        let ghost o0 = strings_view(out@);
        if u.unicode_len() > 0 {
            out.push(u);
            assert(strings_view(out@) =~= o0.push(u@));
        }
        i = i + 1;
    }
    assert(sv.subrange(0, sv.len() as int) =~= sv);
    out
}

/// Parse a comma-separated watchlist into normalized symbols.
pub fn parse_watchlist(value: &str) -> (r: Vec<String>)
    ensures
        strings_view(r@) == spec_parse_watchlist(value@),
{
    let parts = split_char(value, ',');
    normalize_symbols(&parts)
}

/// Values of the shared config file's `dataSources` section.
#[derive(Debug, Clone)]
pub struct SharedDataSources {
    pub primary: Option<String>,
}

/// Values of the shared config file's `tui` section.
#[derive(Debug, Clone)]
pub struct SharedTuiConfig {
    pub provider_type: Option<String>,
    pub update_interval_ms: Option<u64>,
    pub refresh_rate_ms: Option<u64>,
    pub rest_endpoint: Option<String>,
    pub api_base_url: Option<String>,
    pub rest_fallback: Option<bool>,
}

/// Values of the shared config file's `tws` section.
#[derive(Debug, Clone)]
pub struct SharedTwsConfig {
    pub nats_url: Option<String>,
}

/// Values of the shared config file's `strategy` section.
#[derive(Debug, Clone)]
pub struct SharedStrategyConfig {
    pub symbols: Option<Vec<String>>,
}

/// Values of the shared config file's `broker` section.
#[derive(Debug, Clone)]
pub struct SharedBrokerConfig {
    pub primary: Option<String>,
}

/// The values of the shared configuration file that the TUI reads.
#[derive(Debug, Clone)]
pub struct SharedConfigFile {
    pub data_sources: SharedDataSources,
    pub tui: SharedTuiConfig,
    pub tws: SharedTwsConfig,
    pub strategy: SharedStrategyConfig,
    pub broker: SharedBrokerConfig,
}

/// View of an optional string.
pub open spec fn opt_view(o: Option<String>) -> Option<Seq<char>> {
    match o {
        Some(s) => Some(s@),
        None => None,
    }
}

/// `max(v, lo)`.
pub open spec fn spec_at_least(v: u64, lo: u64) -> u64 {
    if v < lo { lo } else { v }
}

/// The NATS URL from the shared file, trimmed.
pub open spec fn spec_shared_nats(c: TuiConfigView, u: Option<Seq<char>>) -> TuiConfigView {
    match u {
        Some(u) => TuiConfigView { nats_url: spec_trim(u), ..c },
        None => c,
    }
}

/// The backend id from the shared file, trimmed and lowercased, when non-empty.
pub open spec fn spec_shared_backend(c: TuiConfigView, b: Option<Seq<char>>) -> TuiConfigView {
    match b {
        Some(b) => {
            let n = spec_str_to_lowercase(spec_trim(b));
            if n.len() > 0 { TuiConfigView { backend_id: n, ..c } } else { c }
        },
        None => c,
    }
}

/// The REST URL (normalized) when non-empty.
pub open spec fn spec_set_rest(c: TuiConfigView, r: Option<Seq<char>>) -> TuiConfigView {
    match r {
        Some(r) => {
            let n = spec_normalize_rest_base_url(r);
            if n.len() > 0 { TuiConfigView { rest_url: n, ..c } } else { c }
        },
        None => c,
    }
}

/// Tick and REST poll intervals from the shared file, each raised to at least 1 ms.
pub open spec fn spec_shared_intervals(c: TuiConfigView, tick: Option<u64>, poll: Option<u64>) -> TuiConfigView {
    let c1 = match tick {
        Some(t) => TuiConfigView { tick_ms: spec_at_least(t, 1), ..c },
        None => c,
    };
    match poll {
        Some(t) => TuiConfigView { rest_poll_ms: spec_at_least(t, 1), ..c1 },
        None => c1,
    }
}

/// A non-empty normalized symbol list replaces the watchlist.
pub open spec fn spec_shared_symbols(c: TuiConfigView, list: Option<Seq<Seq<char>>>) -> TuiConfigView {
    match list {
        Some(l) => {
            let w = spec_normalize_symbols(l);
            if w.len() > 0 { TuiConfigView { watchlist: w, ..c } } else { c }
        },
        None => c,
    }
}

/// An explicit REST-fallback flag wins; otherwise provider type `nats` turns the
/// fallback off and `rest` turns it on (trimmed, ASCII case-insensitive).
pub open spec fn spec_shared_fallback(c: TuiConfigView, flag: Option<bool>, provider: Option<Seq<char>>) -> TuiConfigView {
    match flag {
        Some(b) => TuiConfigView { rest_fallback: b, ..c },
        None => match provider {
            Some(p) => {
                let w = spec_ascii_lowercase(spec_trim(p));
                if w == "nats"@ {
                    TuiConfigView { rest_fallback: false, ..c }
                } else if w == "rest"@ {
                    TuiConfigView { rest_fallback: true, ..c }
                } else {
                    c
                }
            },
            None => c,
        },
    }
}

/// The option's strings by their views.
pub open spec fn opt_strings_view(o: Option<Vec<String>>) -> Option<Seq<Seq<char>>> {
    match o {
        Some(v) => Some(strings_view(v@)),
        None => None,
    }
}

/// Configuration after applying the shared config file's values to `c`:
/// a NATS URL is trimmed; the backend id (data-source primary, else broker primary) is
/// trimmed and lowercased and kept only when non-empty; the REST URL (API base URL, else
/// REST endpoint) is normalized and kept only when non-empty; refresh and update
/// intervals are raised to at least 1 ms; a non-empty normalized symbol list replaces the
/// watchlist; an explicit REST-fallback flag wins, otherwise provider type `nats` turns
/// it off and `rest` turns it on.
pub open spec fn spec_apply_shared(c: TuiConfigView, s: SharedConfigFile) -> TuiConfigView {
    let backend = if s.data_sources.primary is Some {
        opt_view(s.data_sources.primary)
    } else {
        opt_view(s.broker.primary)
    };
    let rest = if s.tui.api_base_url is Some {
        opt_view(s.tui.api_base_url)
    } else {
        opt_view(s.tui.rest_endpoint)
    };
    let c1 = spec_shared_nats(c, opt_view(s.tws.nats_url));
    let c2 = spec_shared_backend(c1, backend);
    let c3 = spec_set_rest(c2, rest);
    let c4 = spec_shared_intervals(c3, s.tui.refresh_rate_ms, s.tui.update_interval_ms);
    let c5 = spec_shared_symbols(c4, opt_strings_view(s.strategy.symbols));
    spec_shared_fallback(c5, s.tui.rest_fallback, opt_view(s.tui.provider_type))
}

/// Values of the environment variables that override the configuration; `None` when a
/// variable is unset.
#[derive(Debug, Clone)]
pub struct EnvOverrides {
    pub nats_url: Option<String>,
    pub backend_id: Option<String>,
    pub rest_url: Option<String>,
    pub watchlist: Option<String>,
    pub tick_ms: Option<String>,
    pub rest_poll_ms: Option<String>,
    pub rest_fallback: Option<String>,
    pub snapshot_ttl_secs: Option<String>,
    pub split_pane: Option<String>,
}

/// A non-empty trimmed NATS URL from the environment.
pub open spec fn spec_env_nats(c: TuiConfigView, v: Option<Seq<char>>) -> TuiConfigView {
    match v {
        Some(v) => if spec_trim(v).len() > 0 { TuiConfigView { nats_url: spec_trim(v), ..c } } else { c },
        None => c,
    }
}

/// A non-empty parsed watchlist from the environment.
pub open spec fn spec_env_watchlist(c: TuiConfigView, v: Option<Seq<char>>) -> TuiConfigView {
    match v {
        Some(v) => {
            let w = spec_parse_watchlist(v);
            if w.len() > 0 { TuiConfigView { watchlist: w, ..c } } else { c }
        },
        None => c,
    }
}

/// A number parsed from an environment value, when it parses.
pub open spec fn spec_env_number(v: Option<Seq<char>>) -> Option<u64> {
    match v {
        Some(v) => spec_parse_u64(v),
        None => None,
    }
}

/// A flag parsed from an environment value, when it parses.
pub open spec fn spec_env_flag(v: Option<Seq<char>>) -> Option<bool> {
    match v {
        Some(v) => spec_parse_bool(v),
        None => None,
    }
}

/// Numbers and flags from the environment: numbers raised to at least 1.
pub open spec fn spec_env_values(
    c: TuiConfigView,
    tick: Option<u64>,
    poll: Option<u64>,
    fallback: Option<bool>,
    ttl: Option<u64>,
    split: Option<bool>,
) -> TuiConfigView {
    let c1 = spec_shared_intervals(c, tick, poll);
    let c2 = match fallback {
        Some(b) => TuiConfigView { rest_fallback: b, ..c1 },
        None => c1,
    };
    let c3 = match ttl {
        Some(p) => TuiConfigView { snapshot_ttl_secs: spec_at_least(p, 1), ..c2 },
        None => c2,
    };
    match split {
        Some(b) => TuiConfigView { split_pane: b, ..c3 },
        None => c3,
    }
}

/// Configuration after applying environment overrides to `c`: non-empty trimmed NATS URL,
/// non-empty trimmed lowercased backend id, non-empty normalized REST URL and non-empty
/// parsed watchlist replace their fields; numbers that parse replace theirs, raised to at
/// least 1; booleans that parse replace theirs; anything else is ignored.
pub open spec fn spec_apply_env(c: TuiConfigView, e: EnvOverrides) -> TuiConfigView {
    let c1 = spec_env_nats(c, opt_view(e.nats_url));
    let c2 = spec_shared_backend(c1, opt_view(e.backend_id));
    let c3 = spec_set_rest(c2, opt_view(e.rest_url));
    let c4 = spec_env_watchlist(c3, opt_view(e.watchlist));
    spec_env_values(
        c4,
        spec_env_number(opt_view(e.tick_ms)),
        spec_env_number(opt_view(e.rest_poll_ms)),
        spec_env_flag(opt_view(e.rest_fallback)),
        spec_env_number(opt_view(e.snapshot_ttl_secs)),
        spec_env_flag(opt_view(e.split_pane)),
    )
}

/// Validation messages for a configuration.
pub open spec fn spec_validation_errors(c: TuiConfigView, require_nats: bool) -> Seq<Seq<char>> {
    let e1: Seq<Seq<char>> = if require_nats && !c.rest_fallback && !spec_starts_with(c.nats_url, "nats://"@) {
        seq!["NATS URL must use nats:// scheme when NATS is required"@]
    } else {
        Seq::empty()
    };
    if c.tick_ms == 0 { e1.push("TICK_MS must be > 0"@) } else { e1 }
}

impl TuiConfig {
    /// A copy of the configuration.
    pub fn clone_config(&self) -> (r: Self)
        ensures
            r@ == self@,
    {
        TuiConfig {
            nats_url: copy_str(self.nats_url.as_str()),
            backend_id: copy_str(self.backend_id.as_str()),
            rest_url: copy_str(self.rest_url.as_str()),
            watchlist: copy_strings(&self.watchlist),
            tick_ms: self.tick_ms,
            rest_poll_ms: self.rest_poll_ms,
            rest_fallback: self.rest_fallback,
            snapshot_ttl_secs: self.snapshot_ttl_secs,
            split_pane: self.split_pane,
            benchmarks_refresh_secs: self.benchmarks_refresh_secs,
            yield_kv_bucket: copy_str(self.yield_kv_bucket.as_str()),
            positions_sort: self.positions_sort,
            theme: self.theme,
        }
    }

    /// The default configuration.
    pub fn new_default() -> (r: Self)
        ensures
            r@ == spec_default_config(),
    {
        TuiConfig {
            nats_url: copy_str(DEFAULT_NATS_URL),
            backend_id: copy_str(DEFAULT_BACKEND_ID),
            rest_url: copy_str(DEFAULT_REST_URL),
            watchlist: parse_watchlist(DEFAULT_WATCHLIST),
            tick_ms: 250,
            rest_poll_ms: 2000,
            rest_fallback: false,
            snapshot_ttl_secs: DEFAULT_SNAPSHOT_TTL_SECS,
            split_pane: false,
            benchmarks_refresh_secs: DEFAULT_BENCHMARKS_REFRESH_SECS,
            yield_kv_bucket: copy_str(DEFAULT_YIELD_KV_BUCKET),
            positions_sort: PositionsSortMode::Default,
            theme: TuiTheme::Default,
        }
    }

    /// Seconds after which a snapshot counts as stale: the REST poll interval (at least
    /// one second) rounded up to whole seconds.
    pub fn snapshot_stale_after_secs(&self) -> (r: i64)
        ensures
            r as int == {
                let ms = if self.rest_poll_ms < 1000 { 1000 } else { self.rest_poll_ms as int };
                (ms + 999) / 1000
            },
    {
        let ms = if self.rest_poll_ms < 1000 { 1000 } else { self.rest_poll_ms };
        let q = ms / 1000;
        let r = if ms % 1000 == 0 { q } else { q + 1 };
        r as i64
    }

    /// Check the configuration: a `nats://` URL is required when NATS is required and the
    /// REST fallback is off, and the tick interval must be positive.
    pub fn validate(&self, require_nats: bool) -> (r: Result<(), Vec<String>>)
        ensures
            r is Ok <==> spec_validation_errors(self@, require_nats).len() == 0,
            r matches Err(v) ==> strings_view(v@) == spec_validation_errors(self@, require_nats),
    {
        let mut errors: Vec<String> = Vec::new();
        if require_nats && !self.rest_fallback && !str_starts_with(self.nats_url.as_str(), "nats://") {
            errors.push(copy_str("NATS URL must use nats:// scheme when NATS is required"));
        }
        if self.tick_ms == 0 {
            errors.push(copy_str("TICK_MS must be > 0"));
        }
        assert(strings_view(errors@) =~= spec_validation_errors(self@, require_nats));
        if errors.len() == 0 {
            Ok(())
        } else {
            Err(errors)
        }
    }

    fn set_backend(&mut self, b: &Option<String>)
        ensures
            final(self)@ == spec_shared_backend(old(self)@, opt_view(*b)),
    {
        if let Some(b) = b {
            let t = trim(b.as_str());
            let n = to_lowercase(t.as_str());
            if n.unicode_len() > 0 {
                self.backend_id = n;
            }
        }
    }

    fn set_rest(&mut self, r: &Option<String>)
        ensures
            final(self)@ == spec_set_rest(old(self)@, opt_view(*r)),
    {
        if let Some(r) = r {
            let n = normalize_rest_base_url(r.as_str());
            if n.unicode_len() > 0 {
                self.rest_url = n;
            }
        }
    }

    fn set_intervals(&mut self, tick: Option<u64>, poll: Option<u64>)
        ensures
            final(self)@ == spec_shared_intervals(old(self)@, tick, poll),
    {
        if let Some(t) = tick {
            self.tick_ms = if t < 1 { 1 } else { t };
        }
        if let Some(t) = poll {
            self.rest_poll_ms = if t < 1 { 1 } else { t };
        }
    }

    fn set_shared_fallback(&mut self, flag: Option<bool>, provider: &Option<String>)
        ensures
            final(self)@ == spec_shared_fallback(old(self)@, flag, opt_view(*provider)),
    {
        proof {
            reveal_strlit("nats");
            reveal_strlit("rest");
        }
        if let Some(b) = flag {
            self.rest_fallback = b;
        } else if let Some(p) = provider {
            let t = trim(p.as_str());
            let w = to_ascii_lowercase(t.as_str());
            if str_eq(w.as_str(), "nats") {
                self.rest_fallback = false;
            } else if str_eq(w.as_str(), "rest") {
                self.rest_fallback = true;
            }
        }
    }

    /// Apply the values of the shared config file (see `spec_apply_shared`).
    pub fn apply_shared_config(&mut self, shared: &SharedConfigFile)
        ensures
            final(self)@ == spec_apply_shared(old(self)@, *shared),
    {
        if let Some(u) = &shared.tws.nats_url {
            self.nats_url = trim(u.as_str());
        }
        if shared.data_sources.primary.is_some() {
            self.set_backend(&shared.data_sources.primary);
        } else {
            self.set_backend(&shared.broker.primary);
        }
        if shared.tui.api_base_url.is_some() {
            self.set_rest(&shared.tui.api_base_url);
        } else {
            self.set_rest(&shared.tui.rest_endpoint);
        }
        self.set_intervals(shared.tui.refresh_rate_ms, shared.tui.update_interval_ms);
        if let Some(list) = &shared.strategy.symbols {
            let w = normalize_symbols(list);
            if w.len() > 0 {
                self.watchlist = w;
            }
        }
        self.set_shared_fallback(shared.tui.rest_fallback, &shared.tui.provider_type);
    }

    fn env_number(v: &Option<String>) -> (r: Option<u64>)
        ensures
            r == spec_env_number(opt_view(*v)),
    {
        match v {
            Some(v) => parse_u64(v.as_str()),
            None => None,
        }
    }

    fn env_flag(v: &Option<String>) -> (r: Option<bool>)
        ensures
            r == spec_env_flag(opt_view(*v)),
    {
        match v {
            Some(v) => parse_bool(v.as_str()),
            None => None,
        }
    }

    /// Apply environment overrides (see `spec_apply_env`).
    pub fn apply_env_overrides(&mut self, env: &EnvOverrides)
        ensures
            final(self)@ == spec_apply_env(old(self)@, *env),
    {
        if let Some(v) = &env.nats_url {
            let t = trim(v.as_str());
            if t.unicode_len() > 0 {
                self.nats_url = t;
            }
        }
        self.set_backend(&env.backend_id);
        self.set_rest(&env.rest_url);
        if let Some(v) = &env.watchlist {
            let w = parse_watchlist(v.as_str());
            if w.len() > 0 {
                self.watchlist = w;
            }
        }
        self.apply_env_values(env);
    }

    /// The numeric and flag part of the environment overrides (see `spec_env_values`).
    fn apply_env_values(&mut self, env: &EnvOverrides)
        ensures
            final(self)@ == spec_env_values(
                old(self)@,
                spec_env_number(opt_view(env.tick_ms)),
                spec_env_number(opt_view(env.rest_poll_ms)),
                spec_env_flag(opt_view(env.rest_fallback)),
                spec_env_number(opt_view(env.snapshot_ttl_secs)),
                spec_env_flag(opt_view(env.split_pane)),
            ),
    {
        let tick = Self::env_number(&env.tick_ms);
        let poll = Self::env_number(&env.rest_poll_ms);
        self.set_intervals(tick, poll);
        if let Some(b) = Self::env_flag(&env.rest_fallback) {
            self.rest_fallback = b;
        }
        if let Some(p) = Self::env_number(&env.snapshot_ttl_secs) {
            self.snapshot_ttl_secs = if p < 1 { 1 } else { p };
        }
        if let Some(b) = Self::env_flag(&env.split_pane) {
            self.split_pane = b;
        }
    }

    /// The configuration the TUI runs with: defaults, then the shared config file's
    /// values (when a file was found), then environment overrides.
    pub fn load(shared: Option<&SharedConfigFile>, env: &EnvOverrides) -> (r: Self)
        ensures
            r@ == spec_apply_env(
                match shared {
                    Some(s) => spec_apply_shared(spec_default_config(), *s),
                    None => spec_default_config(),
                },
                *env,
            ),
    {
        let mut config = TuiConfig::new_default();
        if let Some(s) = shared {
            config.apply_shared_config(s);
        }
        config.apply_env_overrides(env);
        config
    }
}

impl Default for TuiConfig {
    fn default() -> (r: Self)
        ensures
            r@ == spec_default_config(),
    {
        TuiConfig::new_default()
    }
}

} // verus!
