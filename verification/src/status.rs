//! What the status bar says, segment by segment: the backend, the UI mode, the snapshot's
//! mode and strategy, account and gateway, the split pane, the market-data source,
//! staleness and age, the config hint, the input surface, the market session and the
//! connection badges. Colours are left to the caller.
use vstd::prelude::*;
use crate::app::{spec_input_mode, App};
use crate::events::{spec_connection_state_label, ConnectionState};
use crate::hints::{mode_indicator, spec_mode_indicator};
use crate::labels::truncate_detail;
use crate::mode::spec_mode_label;
use crate::parse::{format_u64, spec_format_decimal};
use crate::text::{
    concat, copy_str, push_str, spec_str_to_uppercase, spec_trim, spec_truncate_chars, str_eq, strings_view, to_uppercase,
    trim,
};

verus! {

/// What the status bar reads from the latest snapshot; ages are whole seconds.
#[derive(Debug, Clone)]
pub struct SnapshotStatus {
    pub mode: String,
    pub strategy: String,
    pub market_data_source: Option<String>,
    pub account_id: String,
    pub tws_address: Option<String>,
    pub age_secs: u64,
    pub stale: bool,
}

/// Age of the snapshot: seconds below a minute, else whole minutes.
pub open spec fn spec_age_text(age: u64) -> Seq<char> {
    if age < 60 {
        "Updated "@ + spec_format_decimal(age as nat) + "s ago"@
    } else {
        "Updated "@ + spec_format_decimal((age / 60) as nat) + "m ago"@
    }
}

/// Badge of the transport's health, `*` marking a stale report.
pub open spec fn spec_transport_badge(status: Seq<char>, stale: bool) -> Seq<char> {
    (if status == "ok"@ {
        "T:OK"@
    } else if status == "degraded"@ {
        "T:WARN"@
    } else if status == "error"@ || status == "disabled"@ {
        "T:DOWN"@
    } else {
        "T:—"@
    }) + (if stale { "*"@ } else { Seq::empty() })
}

/// The segments before the market-data source.
pub open spec fn spec_head_segments(a: &App, snap: Option<SnapshotStatus>) -> Seq<Seq<char>> {
    let s0: Seq<Seq<char>> = Seq::empty();
    let s1 = s0.push(spec_str_to_uppercase(a.config.backend_id@)).push(spec_mode_label(a.app_mode));
    let s2 = match snap {
        Some(sn) => s1.push(sn.mode@).push(sn.strategy@),
        None => s1.push("---"@).push("---"@),
    };
    let s3 = s2.push("READ-ONLY"@);
    let s4 = match snap {
        Some(sn) => {
            let t = if spec_trim(sn.account_id@).len() > 0 {
                s3.push("Account: "@ + spec_trim(sn.account_id@))
            } else {
                s3
            };
            match sn.tws_address {
                Some(addr) => t.push("TWS: "@ + addr@),
                None => t,
            }
        },
        None => s3,
    };
    if a.split_pane { s4.push("PANE:DASH+POS"@) } else { s4 }
}

/// The segments from the market-data source on.
pub open spec fn spec_tail_segments(a: &App, snap: Option<SnapshotStatus>, market_open: Option<bool>,
    connection: ConnectionState, transport: Seq<char>, transport_stale: bool) -> Seq<Seq<char>> {
    let source = match snap {
        Some(sn) => match sn.market_data_source {
            Some(src) => src@,
            None => "NATS"@,
        },
        None => "NO DATA"@,
    };
    let s0: Seq<Seq<char>> = Seq::empty().push("["@ + spec_str_to_uppercase(source) + "]"@);
    let s1 = match snap {
        Some(sn) => (if sn.stale { s0.push("[STALE]"@) } else { s0 }).push(spec_age_text(sn.age_secs)),
        None => s0,
    };
    let s2 = match a.config_warning {
        Some(w) => s1.push("Config: "@ + spec_truncate_chars(w@, 24)),
        None => s1,
    };
    let s3 = match spec_mode_indicator(spec_input_mode(a), match a.settings_edit_config_key {
        Some(k) => Some(k@),
        None => None,
    }) {
        Some(m) => s2.push(m),
        None => s2,
    };
    let s4 = match market_open {
        Some(true) => s3.push("MKT:OPEN"@),
        Some(false) => s3.push("MKT:CLOSED"@),
        None => s3,
    };
    s4.push("NATS:"@ + spec_connection_state_label(connection)).push(spec_transport_badge(transport, transport_stale))
}

fn age_text(age: u64) -> (r: String)
    ensures
        r@ == spec_age_text(age),
{
    let n: u64 = if age < 60 { age } else { age / 60 };
    let mut r = concat("Updated ", format_u64(n).as_str());
    push_str(&mut r, if age < 60 { "s ago" } else { "m ago" });
    r
}

/// Badge of the transport's health (see `spec_transport_badge`).
pub fn transport_badge(status: &str, stale: bool) -> (r: String)
    ensures
        r@ == spec_transport_badge(status@, stale),
{
    let label = if str_eq(status, "ok") {
        "T:OK"
    } else if str_eq(status, "degraded") {
        "T:WARN"
    } else if str_eq(status, "error") || str_eq(status, "disabled") {
        "T:DOWN"
    } else {
        "T:—"
    };
    let mut r = copy_str(label);
    if stale {
        push_str(&mut r, "*");
    }
    proof {
        if !stale {
            assert(r@ =~= label@ + Seq::<char>::empty());
        }
    }
    r
}

fn head_segments(v: &mut Vec<String>, app: &App, snap: Option<&SnapshotStatus>)
    requires
        old(v)@.len() == 0,
    ensures
        strings_view(final(v)@) == spec_head_segments(app, match snap {
            Some(s) => Some(*s),
            None => None,
        }),
{
    v.push(to_uppercase(app.config.backend_id.as_str()));
    v.push(copy_str(app.app_mode.label()));
    match snap {
        Some(sn) => {
            v.push(copy_str(sn.mode.as_str()));
            v.push(copy_str(sn.strategy.as_str()));
        },
        None => {
            v.push(copy_str("---"));
            v.push(copy_str("---"));
        },
    }
    v.push(copy_str("READ-ONLY"));
    if let Some(sn) = snap {
        let aid = trim(sn.account_id.as_str());
        if aid.unicode_len() > 0 {
            v.push(concat("Account: ", aid.as_str()));
        }
        if let Some(addr) = &sn.tws_address {
            v.push(concat("TWS: ", addr.as_str()));
        }
    }
    if app.split_pane {
        v.push(copy_str("PANE:DASH+POS"));
    }
    assert(strings_view(v@) =~= spec_head_segments(app, match snap {
        Some(s) => Some(*s),
        None => None,
    }));
}

fn tail_segments(app: &App, snap: Option<&SnapshotStatus>, market_open: Option<bool>, connection: ConnectionState,
    transport: &str, transport_stale: bool) -> (r: Vec<String>)
    ensures
        strings_view(r@) == spec_tail_segments(app, match snap {
            Some(s) => Some(*s),
            None => None,
        }, market_open, connection, transport@, transport_stale),
{
    let mut v: Vec<String> = Vec::new();
    let source = match snap {
        Some(sn) => match &sn.market_data_source {
            Some(src) => copy_str(src.as_str()),
            None => copy_str("NATS"),
        },
        None => copy_str("NO DATA"),
    };
    let mut pill = concat("[", to_uppercase(source.as_str()).as_str());
    push_str(&mut pill, "]");
    v.push(pill);
    if let Some(sn) = snap {
        if sn.stale {
            v.push(copy_str("[STALE]"));
        }
        v.push(age_text(sn.age_secs));
    }
    if let Some(w) = &app.config_warning {
        v.push(concat("Config: ", truncate_detail(w.as_str(), 24).as_str()));
    }
    if let Some(m) = mode_indicator(app) {
        v.push(m);
    }
    match market_open {
        Some(true) => v.push(copy_str("MKT:OPEN")),
        Some(false) => v.push(copy_str("MKT:CLOSED")),
        None => {},
    }
    v.push(concat("NATS:", connection.label()));
    v.push(transport_badge(transport, transport_stale));
    assert(strings_view(v@) =~= spec_tail_segments(app, match snap {
        Some(s) => Some(*s),
        None => None,
    }, market_open, connection, transport@, transport_stale));
    v
}

/// The status bar's segments, in order: `spec_head_segments` then
/// `spec_tail_segments`.
pub fn status_segments(app: &App, snap: Option<&SnapshotStatus>, market_open: Option<bool>,
    connection: ConnectionState, transport: &str, transport_stale: bool) -> (r: Vec<String>)
    ensures
        strings_view(r@) == spec_head_segments(app, match snap {
            Some(s) => Some(*s),
            None => None,
        }) + spec_tail_segments(app, match snap {
            Some(s) => Some(*s),
            None => None,
        }, market_open, connection, transport@, transport_stale),
{
    let mut v: Vec<String> = Vec::new();
    head_segments(&mut v, app, snap);
    let mut tail = tail_segments(app, snap, market_open, connection, transport, transport_stale);
    let ghost h = strings_view(v@);
    let ghost t = strings_view(tail@);
    v.append(&mut tail);
    assert(strings_view(v@) =~= h + t);
    v
}

} // verus!
