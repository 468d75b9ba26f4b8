//! In-TUI configuration overrides, the Settings config list and the config hint.
use vstd::prelude::*;
use crate::config::{
    spec_parse_sort, spec_parse_theme, spec_sort_value, spec_theme_value, PositionsSortMode, TuiConfig,
    TuiConfigView, TuiTheme,
};
use crate::parse::{format_u64, parse_u64, spec_format_decimal, spec_parse_u64};
use crate::text::{
    concat, copy_str, spec_str_to_lowercase, spec_trim, str_eq, to_lowercase, trim,
};

verus! {

/// Key/value overrides typed in the Settings tab, keyed by config variable name.
#[derive(Debug, Clone)]
pub struct ConfigOverrides {
    entries: Vec<(String, String)>,
}

/// Views of key/value pairs.
pub open spec fn pairs_view(s: Seq<(String, String)>) -> Seq<(Seq<char>, Seq<char>)> {
    s.map_values(|p: (String, String)| (p.0@, p.1@))
}

/// The map that a list of pairs stands for: a later pair replaces an earlier one.
pub open spec fn spec_pairs_map(s: Seq<(Seq<char>, Seq<char>)>) -> Map<Seq<char>, Seq<char>>
    decreases s.len(),
{
    if s.len() == 0 {
        Map::empty()
    } else {
        spec_pairs_map(s.drop_last()).insert(s.last().0, s.last().1)
    }
}

impl View for ConfigOverrides {
    type V = Map<Seq<char>, Seq<char>>;

    closed spec fn view(&self) -> Map<Seq<char>, Seq<char>> {
        spec_pairs_map(pairs_view(self.entries@))
    }
}

/// The value stored for `key`, if any.
pub open spec fn spec_lookup(m: Map<Seq<char>, Seq<char>>, key: Seq<char>) -> Option<Seq<char>> {
    if m.dom().contains(key) { Some(m[key]) } else { None }
}

impl ConfigOverrides {
    /// No overrides.
    pub fn new() -> (r: Self)
        ensures
            r@ == Map::<Seq<char>, Seq<char>>::empty(),
    {
        ConfigOverrides { entries: Vec::new() }
    }

    /// Set the override for `key` to `value`.
    pub fn insert(&mut self, key: &str, value: &str)
        ensures
            final(self)@ == old(self)@.insert(key@, value@),
    {
        let ghost old_pairs = pairs_view(self.entries@);
        self.entries.push((copy_str(key), copy_str(value)));
        assert(pairs_view(self.entries@).drop_last() =~= old_pairs);
    }

    /// The override for `key`, if one was set.
    pub fn get(&self, key: &str) -> (r: Option<String>)
        ensures
            r matches Some(v) ==> spec_lookup(self@, key@) == Some(v@),
            r is None ==> spec_lookup(self@, key@) is None,
    {
        let ghost ps = pairs_view(self.entries@);
        let mut i: usize = self.entries.len();
        assert(ps.subrange(0, i as int) =~= ps);
        while i > 0
            invariant
                i <= self.entries@.len(),
                ps == pairs_view(self.entries@),
                spec_lookup(spec_pairs_map(ps), key@) == spec_lookup(
                    spec_pairs_map(ps.subrange(0, i as int)),
                    key@,
                ),
            decreases i,
        {
            let ghost pre = ps.subrange(0, i as int);
            assert(pre.drop_last() =~= ps.subrange(0, i - 1));
            assert(pre.last() == ps[i - 1]);
            if str_eq(self.entries[i - 1].0.as_str(), key) {
                return Some(copy_str(self.entries[i - 1].1.as_str()));
            }
            i = i - 1;
        }
        assert(ps.subrange(0, 0) =~= Seq::<(Seq<char>, Seq<char>)>::empty());
        None
    }
}

/// Whether a trimmed, lowercased override value reads as "on".
pub open spec fn spec_override_flag(v: Seq<char>) -> bool {
    let w = spec_str_to_lowercase(spec_trim(v));
    w == "1"@ || w == "true"@ || w == "yes"@
}

/// A number typed as an override (trimmed), raised to at least 1, when it parses.
pub open spec fn spec_override_number(v: Option<Seq<char>>) -> Option<u64> {
    match v {
        Some(v) => match spec_parse_u64(spec_trim(v)) {
            Some(n) => Some(if n < 1 { 1u64 } else { n }),
            None => None,
        },
        None => None,
    }
}

/// Text fields after the overrides: `NATS_URL` is trimmed (and may become empty);
/// `BACKEND_ID` is trimmed and lowercased and applies when non-empty; `REST_URL` is
/// trimmed and applies when non-empty.
pub open spec fn spec_merge_text(c: TuiConfigView, o: Map<Seq<char>, Seq<char>>) -> TuiConfigView {
    let c1 = match spec_lookup(o, "NATS_URL"@) {
        Some(v) => TuiConfigView { nats_url: spec_trim(v), ..c },
        None => c,
    };
    let c2 = match spec_lookup(o, "BACKEND_ID"@) {
        Some(v) => {
            let b = spec_str_to_lowercase(spec_trim(v));
            if b.len() > 0 { TuiConfigView { backend_id: b, ..c1 } } else { c1 }
        },
        None => c1,
    };
    match spec_lookup(o, "REST_URL"@) {
        Some(v) => if spec_trim(v).len() > 0 { TuiConfigView { rest_url: spec_trim(v), ..c2 } } else { c2 },
        None => c2,
    }
}

/// Numeric and flag fields after the overrides: `TICK_MS`, `REST_POLL_MS` and
/// `SNAPSHOT_TTL_SECS` apply when they parse (at least 1); `REST_FALLBACK` and
/// `SPLIT_PANE` are on exactly when the value is `1`, `true` or `yes`.
pub open spec fn spec_merge_values(c: TuiConfigView, o: Map<Seq<char>, Seq<char>>) -> TuiConfigView {
    let c1 = match spec_override_number(spec_lookup(o, "TICK_MS"@)) {
        Some(n) => TuiConfigView { tick_ms: n, ..c },
        None => c,
    };
    let c2 = match spec_override_number(spec_lookup(o, "REST_POLL_MS"@)) {
        Some(n) => TuiConfigView { rest_poll_ms: n, ..c1 },
        None => c1,
    };
    let c3 = match spec_lookup(o, "REST_FALLBACK"@) {
        Some(v) => TuiConfigView { rest_fallback: spec_override_flag(v), ..c2 },
        None => c2,
    };
    let c4 = match spec_override_number(spec_lookup(o, "SNAPSHOT_TTL_SECS"@)) {
        Some(n) => TuiConfigView { snapshot_ttl_secs: n, ..c3 },
        None => c3,
    };
    match spec_lookup(o, "SPLIT_PANE"@) {
        Some(v) => TuiConfigView { split_pane: spec_override_flag(v), ..c4 },
        None => c4,
    }
}

/// The remaining fields after the overrides: `BENCHMARKS_REFRESH_SECS` applies when it
/// parses (at least 60); `NATS_KV_BUCKET` is trimmed and applies when non-empty;
/// `TUI_POSITIONS_SORT` and `TUI_THEME` apply when they name an order or a theme.
pub open spec fn spec_merge_extra(c: TuiConfigView, o: Map<Seq<char>, Seq<char>>) -> TuiConfigView {
    let c1 = match spec_lookup(o, "BENCHMARKS_REFRESH_SECS"@) {
        Some(v) => match spec_parse_u64(spec_trim(v)) {
            Some(n) => TuiConfigView { benchmarks_refresh_secs: if n < 60 { 60u64 } else { n }, ..c },
            None => c,
        },
        None => c,
    };
    let c2 = match spec_lookup(o, "NATS_KV_BUCKET"@) {
        Some(v) => if spec_trim(v).len() > 0 { TuiConfigView { yield_kv_bucket: spec_trim(v), ..c1 } } else { c1 },
        None => c1,
    };
    let c3 = match spec_lookup(o, "TUI_POSITIONS_SORT"@) {
        Some(v) => match spec_parse_sort(v) {
            Some(m) => TuiConfigView { positions_sort: m, ..c2 },
            None => c2,
        },
        None => c2,
    };
    match spec_lookup(o, "TUI_THEME"@) {
        Some(v) => match spec_parse_theme(v) {
            Some(t) => TuiConfigView { theme: t, ..c3 },
            None => c3,
        },
        None => c3,
    }
}

/// Configuration after in-TUI overrides are applied on top of `c`.
pub open spec fn spec_merge_overrides(c: TuiConfigView, o: Map<Seq<char>, Seq<char>>) -> TuiConfigView {
    spec_merge_extra(spec_merge_values(spec_merge_text(c, o), o), o)
}

fn override_flag(v: &str) -> (r: bool)
    ensures
        r == spec_override_flag(v@),
{
    let t = trim(v);
    let w = to_lowercase(t.as_str());
    proof {
        reveal_strlit("1");
        reveal_strlit("true");
        reveal_strlit("yes");
    }
    str_eq(w.as_str(), "1") || str_eq(w.as_str(), "true") || str_eq(w.as_str(), "yes")
}

fn override_number(v: &Option<String>) -> (r: Option<u64>)
    ensures
        r == spec_override_number(match v { Some(s) => Some(s@), None => None }),
{
    match v {
        Some(s) => {
            let t = trim(s.as_str());
            match parse_u64(t.as_str()) {
                Some(n) => Some(if n < 1 { 1 } else { n }),
                None => None,
            }
        },
        None => None,
    }
}

fn merge_text(c: &mut TuiConfig, overrides: &ConfigOverrides)
    ensures
        final(c)@ == spec_merge_text(old(c)@, overrides@),
{
    proof {
        reveal_strlit("NATS_URL");
        reveal_strlit("BACKEND_ID");
        reveal_strlit("REST_URL");
    }
    if let Some(v) = overrides.get("NATS_URL") {
        c.nats_url = trim(v.as_str());
    }
    if let Some(v) = overrides.get("BACKEND_ID") {
        let t = trim(v.as_str());
        let b = to_lowercase(t.as_str());
        if b.unicode_len() > 0 {
            c.backend_id = b;
        }
    }
    if let Some(v) = overrides.get("REST_URL") {
        let t = trim(v.as_str());
        if t.unicode_len() > 0 {
            c.rest_url = t;
        }
    }
}

fn merge_values(c: &mut TuiConfig, overrides: &ConfigOverrides)
    ensures
        final(c)@ == spec_merge_values(old(c)@, overrides@),
{
    if let Some(n) = override_number(&overrides.get("TICK_MS")) {
        c.tick_ms = n;
    }
    if let Some(n) = override_number(&overrides.get("REST_POLL_MS")) {
        c.rest_poll_ms = n;
    }
    if let Some(v) = overrides.get("REST_FALLBACK") {
        c.rest_fallback = override_flag(v.as_str());
    }
    if let Some(n) = override_number(&overrides.get("SNAPSHOT_TTL_SECS")) {
        c.snapshot_ttl_secs = n;
    }
    if let Some(v) = overrides.get("SPLIT_PANE") {
        c.split_pane = override_flag(v.as_str());
    }
}

fn merge_extra(c: &mut TuiConfig, overrides: &ConfigOverrides)
    ensures
        final(c)@ == spec_merge_extra(old(c)@, overrides@),
{
    if let Some(v) = overrides.get("BENCHMARKS_REFRESH_SECS") {
        let t = trim(v.as_str());
        if let Some(n) = parse_u64(t.as_str()) {
            c.benchmarks_refresh_secs = if n < 60 { 60 } else { n };
        }
    }
    if let Some(v) = overrides.get("NATS_KV_BUCKET") {
        let t = trim(v.as_str());
        if t.unicode_len() > 0 {
            c.yield_kv_bucket = t;
        }
    }
    if let Some(v) = overrides.get("TUI_POSITIONS_SORT") {
        if let Some(m) = PositionsSortMode::parse_env(v.as_str()) {
            c.positions_sort = m;
        }
    }
    if let Some(v) = overrides.get("TUI_THEME") {
        if let Some(t) = TuiTheme::parse_env(v.as_str()) {
            c.theme = t;
        }
    }
}

/// Merge in-TUI config overrides on top of the base (file/env) configuration.
pub fn merge_config_overrides(base: TuiConfig, overrides: &ConfigOverrides) -> (r: TuiConfig)
    ensures
        r@ == spec_merge_overrides(base@, overrides@),
{
    let mut c = base;
    merge_text(&mut c, overrides);
    merge_values(&mut c, overrides);
    merge_extra(&mut c, overrides);
    c
}

/// Text of a boolean, as `bool::to_string` gives it.
pub open spec fn spec_bool_text(b: bool) -> Seq<char> {
    if b { "true"@ } else { "false"@ }
}

/// The Settings config rows: name and current value of each visible configuration key.
pub open spec fn spec_config_row(c: TuiConfigView, index: int) -> Option<(Seq<char>, Seq<char>)> {
    if index == 0 {
        Some(("NATS_URL"@, c.nats_url))
    } else if index == 1 {
        Some(("BACKEND_ID"@, c.backend_id))
    } else if index == 2 {
        Some(("TICK_MS"@, spec_format_decimal(c.tick_ms as nat)))
    } else if index == 3 {
        Some(("SNAPSHOT_TTL_SECS"@, spec_format_decimal(c.snapshot_ttl_secs as nat)))
    } else if index == 4 {
        Some(("SPLIT_PANE"@, spec_bool_text(c.split_pane)))
    } else if index == 5 {
        Some(("BENCHMARKS_REFRESH_SECS"@, spec_format_decimal(c.benchmarks_refresh_secs as nat)))
    } else if index == 6 {
        Some(("NATS_KV_BUCKET"@, c.yield_kv_bucket))
    } else if index == 7 {
        Some(("TUI_POSITIONS_SORT"@, spec_sort_value(c.positions_sort)))
    } else if index == 8 {
        Some(("TUI_THEME"@, spec_theme_value(c.theme)))
    } else {
        None
    }
}

/// Config key and value shown at `index` in the Settings config list.
pub fn config_key_value_at(config: &TuiConfig, index: usize) -> (r: Option<(String, String)>)
    ensures
        match (r, spec_config_row(config@, index as int)) {
            (Some(p), Some(q)) => p.0@ == q.0 && p.1@ == q.1,
            (None, None) => true,
            _ => false,
        },
{
    if index == 0 {
        Some((copy_str("NATS_URL"), copy_str(config.nats_url.as_str())))
    } else if index == 1 {
        Some((copy_str("BACKEND_ID"), copy_str(config.backend_id.as_str())))
    } else if index == 2 {
        Some((copy_str("TICK_MS"), format_u64(config.tick_ms)))
    } else if index == 3 {
        Some((copy_str("SNAPSHOT_TTL_SECS"), format_u64(config.snapshot_ttl_secs)))
    } else if index == 4 {
        let v = if config.split_pane { copy_str("true") } else { copy_str("false") };
        Some((copy_str("SPLIT_PANE"), v))
    } else if index == 5 {
        Some((copy_str("BENCHMARKS_REFRESH_SECS"), format_u64(config.benchmarks_refresh_secs)))
    } else if index == 6 {
        Some((copy_str("NATS_KV_BUCKET"), copy_str(config.yield_kv_bucket.as_str())))
    } else if index == 7 {
        Some((copy_str("TUI_POSITIONS_SORT"), copy_str(config.positions_sort.as_setting_value())))
    } else if index == 8 {
        Some((copy_str("TUI_THEME"), copy_str(config.theme.as_setting_value())))
    } else {
        None
    }
}

/// Number of rows of the Settings config list.
pub const CONFIG_ROW_COUNT: usize = 9;

/// Number of rows in the Settings config list.
pub fn config_key_count(config: &TuiConfig) -> (r: usize)
    ensures
        forall|i: int| 0 <= i < r ==> spec_config_row(config@, i) is Some,
        spec_config_row(config@, r as int) is None,
        r == CONFIG_ROW_COUNT,
{
    let mut n: usize = 0;
    while config_key_value_at(config, n).is_some()
        invariant
            n <= 9,
            forall|i: int| 0 <= i < n ==> spec_config_row(config@, i) is Some,
        decreases 9 - n,
    {
        n = n + 1;
    }
    n
}

/// Problems named in the config hint: an empty NATS URL, then an empty backend id.
pub open spec fn spec_config_issues(c: TuiConfigView) -> Seq<Seq<char>> {
    let a: Seq<Seq<char>> = if spec_trim(c.nats_url).len() == 0 { seq!["NATS_URL empty"@] } else { Seq::empty() };
    if spec_trim(c.backend_id).len() == 0 { a.push("BACKEND_ID empty"@) } else { a }
}

/// The config hint: `None` when nothing is missing, else the issues joined with `"; "`.
pub open spec fn spec_config_hint(c: TuiConfigView) -> Option<Seq<char>> {
    let issues = spec_config_issues(c);
    if issues.len() == 0 {
        None
    } else if issues.len() == 1 {
        Some(issues[0])
    } else {
        Some(issues[0] + "; "@ + issues[1])
    }
}

/// A short validation hint when required fields are missing.
pub fn validate_config_hint(config: &TuiConfig) -> (r: Option<String>)
    ensures
        match r {
            Some(s) => spec_config_hint(config@) == Some(s@),
            None => spec_config_hint(config@) is None,
        },
{
    let nats_empty = trim(config.nats_url.as_str()).unicode_len() == 0;
    let backend_empty = trim(config.backend_id.as_str()).unicode_len() == 0;
    if nats_empty && backend_empty {
        let a = concat("NATS_URL empty", "; ");
        Some(concat(a.as_str(), "BACKEND_ID empty"))
    } else if nats_empty {
        Some(copy_str("NATS_URL empty"))
    } else if backend_empty {
        Some(copy_str("BACKEND_ID empty"))
    } else {
        None
    }
}


/// With no overrides set, merging leaves the configuration unchanged.
pub proof fn law_merge_without_overrides_is_identity(c: TuiConfigView)
    ensures
        spec_merge_overrides(c, Map::empty()) == c,
{
}

/// An override of the NATS URL is what the merged configuration holds, trimmed.
pub proof fn law_nats_override_applies(c: TuiConfigView, o: Map<Seq<char>, Seq<char>>, v: Seq<char>)
    requires
        spec_lookup(o, "NATS_URL"@) == Some(v),
    ensures
        spec_merge_overrides(c, o).nats_url == spec_trim(v),
{
}

} // verus!
