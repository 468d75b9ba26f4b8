//! Replies from outside that change the application state: a configuration reloaded
//! from disk, a yield refresh published, a yield curve arrived, a refresh acknowledged,
//! and the periodic check that asks for the loans list on the Loans tab.
use vstd::prelude::*;
use crate::app::{App, RefreshTask, RefreshTaskStatus, MAX_REFRESH_TASKS};
use crate::app_config::{merge_config_overrides, spec_config_hint, spec_merge_overrides, validate_config_hint};
use crate::config::TuiConfig;
use crate::events::{ConnectionStatus, ConnectionTarget};
use crate::dirty_flags::DirtyFlags;
use crate::tab::Tab;
use crate::app::{notify, spec_toast_pushed};
use crate::feedback::{ToastLevel, ToastManager};
use crate::parse::{format_u64, spec_format_decimal};
use crate::text::{concat, copy_str, push_char, push_str, strings_view};

verus! {

/// Error recorded on a refresh task the backend turned down.
pub const REFRESH_REJECTED_MESSAGE: &'static str = "backend rejected refresh";

/// The strings joined with commas.
pub open spec fn spec_join_commas(s: Seq<Seq<char>>) -> Seq<char>
    decreases s.len(),
{
    if s.len() == 0 {
        Seq::empty()
    } else if s.len() == 1 {
        s[0]
    } else {
        spec_join_commas(s.drop_last()) + seq![','] + s.last()
    }
}

/// Whether `i` is the first task of `s` still pending.
pub open spec fn spec_first_pending(s: Seq<RefreshTask>, i: int) -> bool {
    &&& 0 <= i < s.len()
    &&& s[i].status is Pending
    &&& forall|j: int| 0 <= j < i ==> !(#[trigger] s[j].status is Pending)
}

/// Whether no task of `s` is pending.
pub open spec fn spec_none_pending(s: Seq<RefreshTask>) -> bool {
    forall|j: int| 0 <= j < s.len() ==> !(#[trigger] s[j].status is Pending)
}

/// The task list after the first pending task was closed with `status` at `now_ms`.
pub open spec fn spec_closed_first_pending(before: Seq<RefreshTask>, after: Seq<RefreshTask>,
    status: RefreshTaskStatus, now_ms: i64) -> bool {
    if spec_none_pending(before) {
        after == before
    } else {
        exists|i: int| #[trigger] spec_first_pending(before, i) && after.len() == before.len()
            && (forall|j: int| 0 <= j < before.len() && j != i ==> after[j] == before[j])
            && after[i].id == before[i].id && after[i].label@ == before[i].label@
            && after[i].triggered_at_ms == before[i].triggered_at_ms
            && after[i].completed_at_ms == Some(now_ms) && after[i].status == status
    }
}

/// The strings of `v` joined with commas.
pub fn join_commas(v: &Vec<String>) -> (r: String)
    ensures
        r@ == spec_join_commas(strings_view(v@)),
{
    let mut r = String::new();
    let mut i: usize = 0;
    while i < v.len()
        invariant
            i <= v@.len(),
            r@ == spec_join_commas(strings_view(v@).take(i as int)),
        decreases v@.len() - i,
    {
        proof {
            let s = strings_view(v@);
            assert(s.take(i + 1).drop_last() =~= s.take(i as int));
            if i == 0 {
                assert(s.take(0) =~= Seq::<Seq<char>>::empty());
            }
        }
        if i > 0 {
            push_char(&mut r, ',');
        }
        push_str(&mut r, v[i].as_str());
        i = i + 1;
    }
    proof {
        assert(strings_view(v@).take(v@.len() as int) =~= strings_view(v@));
    }
    r
}

/// Index of the first pending task.
fn find_first_pending(tasks: &Vec<RefreshTask>) -> (r: Option<usize>)
    ensures
        match r {
            Some(i) => spec_first_pending(tasks@, i as int),
            None => spec_none_pending(tasks@),
        },
{
    let mut i: usize = 0;
    while i < tasks.len()
        invariant
            i <= tasks@.len(),
            forall|j: int| 0 <= j < i ==> !(#[trigger] tasks@[j].status is Pending),
        decreases tasks@.len() - i,
    {
        if let RefreshTaskStatus::Pending = tasks[i].status {
            return Some(i);
        }
        i = i + 1;
    }
    None
}

/// Close the first pending task with `status` at `now_ms`, if there is one.
fn close_first_pending(tasks: &mut Vec<RefreshTask>, status: RefreshTaskStatus, now_ms: i64)
    ensures
        spec_closed_first_pending(old(tasks)@, final(tasks)@, status, now_ms),
        final(tasks)@.len() == old(tasks)@.len(),
{
    match find_first_pending(tasks) {
        Some(i) => {
            let t = RefreshTask {
                id: tasks[i].id,
                label: copy_str(tasks[i].label.as_str()),
                triggered_at_ms: tasks[i].triggered_at_ms,
                completed_at_ms: Some(now_ms),
                status,
            };
            tasks.set(i, t);
            assert(spec_first_pending(old(tasks)@, i as int));
        },
        None => {},
    }
}

/// Put `task` at the front, dropping the oldest task when the list is full.
fn push_task(tasks: &mut Vec<RefreshTask>, task: RefreshTask)
    ensures
        final(tasks)@ == seq![task] + if old(tasks)@.len() >= MAX_REFRESH_TASKS {
            old(tasks)@.drop_last()
        } else {
            old(tasks)@
        },
{
    if tasks.len() >= MAX_REFRESH_TASKS {
        tasks.pop();
    }
    let ghost kept = tasks@;
    tasks.insert(0, task);
    assert(tasks@ =~= seq![task] + kept);
}

/// What the loans worker reports: a list refresh (the number of loans, or an error),
/// or a bulk import with the server's summary and the list fetched after it.
#[derive(Debug)]
pub enum LoansOutcome {
    Plain(Result<usize, String>),
    BulkSuccess { applied: u64, skipped: usize, list: Result<usize, String> },
}

/// Toast text after a bulk import applied `applied` loans and skipped `skipped` rows.
pub open spec fn spec_bulk_summary(applied: u64, skipped: usize) -> Seq<char> {
    if skipped > 0 {
        "Bulk import: applied "@ + spec_format_decimal(applied as nat) + " loan(s); "@
            + spec_format_decimal(skipped as nat) + " row(s) skipped."@
    } else {
        "Bulk import: applied "@ + spec_format_decimal(applied as nat) + " loan(s)."@
    }
}

/// Level of the bulk import summary: a warning when rows were skipped.
pub open spec fn spec_bulk_level(skipped: usize) -> ToastLevel {
    if skipped > 0 { ToastLevel::Warning } else { ToastLevel::Info }
}

/// The toasts a loans outcome raises, from `t0` to `t1`: a failed refresh while a bulk
/// import was in flight says so; a bulk import reports its summary (a warning when rows
/// were skipped) and then a failed list refresh after it.
pub open spec fn spec_loans_toasts(t0: &ToastManager, t1: &ToastManager, inflight: bool, o: LoansOutcome) -> bool {
    match o {
        LoansOutcome::Plain(res) => match res {
            Err(e) => if inflight {
                spec_toast_pushed(t0, t1, "Bulk import failed: "@ + e@, ToastLevel::Error)
            } else {
                t1@ == t0@
            },
            Ok(_) => t1@ == t0@,
        },
        LoansOutcome::BulkSuccess { applied, skipped, list } => match list {
            Err(e) => exists|mid: ToastManager| #[trigger] spec_toast_pushed(t0, &mid, spec_bulk_summary(applied, skipped),
                spec_bulk_level(skipped))
                && spec_toast_pushed(&mid, t1, "Loan list refresh failed: "@ + e@, ToastLevel::Warning),
            Ok(_) => spec_toast_pushed(t0, t1, spec_bulk_summary(applied, skipped), spec_bulk_level(skipped)),
        },
    }
}

/// Whether a loans outcome raises a toast.
pub open spec fn spec_loans_toasted(inflight: bool, o: LoansOutcome) -> bool {
    match o {
        LoansOutcome::Plain(res) => inflight && res is Err,
        LoansOutcome::BulkSuccess { .. } => true,
    }
}

fn loans_toasts(t: &mut ToastManager, d: &mut DirtyFlags, redraw: &mut bool, inflight: bool, o: &LoansOutcome)
    ensures
        spec_loans_toasts(old(t), final(t), inflight, *o),
        spec_loans_toasted(inflight, *o) ==> *final(d) == (DirtyFlags { overlay: true, ..*old(d) }) && *final(redraw),
        !spec_loans_toasted(inflight, *o) ==> *final(d) == *old(d) && *final(redraw) == *old(redraw),
{
    match o {
        LoansOutcome::Plain(res) => {
            if inflight {
                if let Err(e) = res {
                    let msg = concat("Bulk import failed: ", e.as_str());
                    notify(t, d, redraw, msg.as_str(), ToastLevel::Error);
                }
            }
        },
        LoansOutcome::BulkSuccess { applied, skipped, list } => {
            let mut msg = concat("Bulk import: applied ", format_u64(*applied).as_str());
            if *skipped > 0 {
                push_str(&mut msg, " loan(s); ");
                push_str(&mut msg, format_u64(*skipped as u64).as_str());
                push_str(&mut msg, " row(s) skipped.");
                notify(t, d, redraw, msg.as_str(), ToastLevel::Warning);
            } else {
                push_str(&mut msg, " loan(s).");
                notify(t, d, redraw, msg.as_str(), ToastLevel::Info);
            }
            let ghost mid = *t;
            assert(spec_toast_pushed(old(t), &mid, spec_bulk_summary(*applied, *skipped), spec_bulk_level(*skipped)));
            if let Err(e) = list {
                let m2 = concat("Loan list refresh failed: ", e.as_str());
                notify(t, d, redraw, m2.as_str(), ToastLevel::Warning);
                assert(spec_toast_pushed(&mid, t, "Loan list refresh failed: "@ + e@, ToastLevel::Warning));
            }
        },
    }
}

/// Ticks between two checks of the market session.
pub const MARKET_CHECK_INTERVAL_TICKS: u32 = 240;

fn step_market_tick(tick: &mut u32) -> (due: bool)
    ensures
        ({
            let t = if *old(tick) == u32::MAX { u32::MAX as int } else { *old(tick) + 1 };
            &&& due == (t == 1 || t >= MARKET_CHECK_INTERVAL_TICKS)
            &&& *final(tick) == (if due { 0 } else { t })
        }),
{
    let t: u32 = if *tick == u32::MAX { u32::MAX } else { *tick + 1 };
    if t == 1 || t >= MARKET_CHECK_INTERVAL_TICKS {
        *tick = 0;
        true
    } else {
        *tick = t;
        false
    }
}

/// The task list never grows past `MAX_REFRESH_TASKS`: publishing a refresh onto a list
/// within the bound keeps it within the bound.
pub proof fn law_refresh_tasks_bounded(tasks: Seq<RefreshTask>, task: RefreshTask)
    requires
        tasks.len() <= MAX_REFRESH_TASKS,
    ensures
        (seq![task] + if tasks.len() >= MAX_REFRESH_TASKS { tasks.drop_last() } else { tasks }).len()
            <= MAX_REFRESH_TASKS,
{
}

impl App {
    /// Count a tick (saturating); the market session is due for a check when the count
    /// reaches 1 or `MARKET_CHECK_INTERVAL_TICKS`, and the count then starts over at 0,
    /// so from a count of 0 the next tick is due again.
    pub fn market_check_due(&mut self) -> (due: bool)
        ensures
            ({
                let t = if old(self).market_open_tick == u32::MAX { u32::MAX as int } else {
                    old(self).market_open_tick + 1 };
                &&& due == (t == 1 || t >= MARKET_CHECK_INTERVAL_TICKS)
                &&& final(self).market_open_tick == (if due { 0 } else { t })
            }),
            *final(self) == (App { market_open_tick: final(self).market_open_tick, ..*old(self) }),
    {
        step_market_tick(&mut self.market_open_tick)
    }

    /// A connection reported a new status: the target's status is replaced.
    pub fn apply_connection(&mut self, target: ConnectionTarget, status: ConnectionStatus)
        ensures
            *final(self) == (App { nats_status: status, ..*old(self) }),
    {
        match target {
            ConnectionTarget::Nats => self.nats_status = status,
        }
    }

    /// Take a loans outcome: nothing is in flight any more, the list (or its error) is
    /// kept, the toasts of `spec_loans_toasts` are raised and the content is redrawn.
    #[verifier::spinoff_prover]
    #[verifier::rlimit(100)]
    pub fn apply_loans_outcome(&mut self, outcome: LoansOutcome)
        ensures
            spec_loans_toasts(&old(self).toast_manager, &final(self).toast_manager,
                old(self).loans_bulk_import_inflight, outcome),
            final(self).loans_list == Some(match outcome {
                LoansOutcome::Plain(res) => res,
                LoansOutcome::BulkSuccess { list, .. } => list,
            }),
            final(self).dirty_flags.content,
            spec_loans_toasted(old(self).loans_bulk_import_inflight, outcome) ==> final(self).dirty_flags.overlay,
            *final(self) == (App { loans_fetch_pending: false, loans_bulk_import_inflight: false,
                loans_list: final(self).loans_list, toast_manager: final(self).toast_manager,
                dirty_flags: final(self).dirty_flags, needs_redraw: true, ..*old(self) }),
    {
        let inflight = self.loans_bulk_import_inflight;
        loans_toasts(&mut self.toast_manager, &mut self.dirty_flags, &mut self.needs_redraw, inflight, &outcome);
        self.loans_fetch_pending = false;
        self.loans_bulk_import_inflight = false;
        let list = match outcome {
            LoansOutcome::Plain(res) => res,
            LoansOutcome::BulkSuccess { list, .. } => list,
        };
        self.loans_list = Some(list);
        self.needs_redraw = true;
        self.dirty_flags.mark_content();
    }

    /// A configuration read again from disk becomes the base; the overrides are applied
    /// on top of it, the result is checked again and the split-pane layout follows it.
    pub fn config_reloaded(&mut self, base: TuiConfig)
        ensures
            final(self).base_config@ == base@,
            final(self).config@ == spec_merge_overrides(base@, old(self).config_overrides@),
            match final(self).config_warning {
                Some(w) => spec_config_hint(final(self).config@) == Some(w@),
                None => spec_config_hint(final(self).config@) is None,
            },
            final(self).split_pane == final(self).config.split_pane,
            *final(self) == (App { base_config: final(self).base_config, config: final(self).config,
                config_warning: final(self).config_warning, split_pane: final(self).split_pane,
                needs_redraw: true, ..*old(self) }),
    {
        let config = merge_config_overrides(base.clone_config(), &self.config_overrides);
        self.config_warning = validate_config_hint(&config);
        self.split_pane = config.split_pane;
        self.config = config;
        self.base_config = base;
        self.needs_redraw = true;
    }

    /// Report whether a yield refresh request was published. A delivered request marks
    /// the refresh pending and starts a new task `Yield refresh <symbols>` at `now_ms`
    /// at the front of the task list, dropping the oldest task when the list is full.
    #[verifier::spinoff_prover]
    #[verifier::rlimit(100)]
    pub fn yield_refresh_sent(&mut self, delivered: bool, now_ms: i64)
        requires
            delivered ==> old(self).yield_task_id_counter < u64::MAX,
        ensures
            !delivered ==> *final(self) == *old(self),
            delivered ==> {
                let kept = if old(self).yield_tasks@.len() >= MAX_REFRESH_TASKS {
                    old(self).yield_tasks@.drop_last()
                } else {
                    old(self).yield_tasks@
                };
                &&& final(self).yield_refresh_pending
                &&& final(self).yield_task_id_counter == old(self).yield_task_id_counter + 1
                &&& final(self).yield_tasks@ == seq![final(self).yield_tasks@[0]] + kept
                &&& final(self).yield_tasks@[0].id == final(self).yield_task_id_counter
                &&& final(self).yield_tasks@[0].label@ == "Yield refresh "@
                    + spec_join_commas(old(self).config@.watchlist)
                &&& final(self).yield_tasks@[0].triggered_at_ms == now_ms
                &&& final(self).yield_tasks@[0].completed_at_ms is None
                &&& final(self).yield_tasks@[0].status is Pending
                &&& *final(self) == (App { yield_refresh_pending: true,
                    yield_task_id_counter: final(self).yield_task_id_counter,
                    yield_tasks: final(self).yield_tasks, ..*old(self) })
            },
    {
        if !delivered {
            return;
        }
        let id: u64 = self.yield_task_id_counter + 1;
        let symbols = join_commas(&self.config.watchlist);
        let mut label = copy_str("Yield refresh ");
        push_str(&mut label, symbols.as_str());
        let task = RefreshTask {
            id,
            label,
            triggered_at_ms: now_ms,
            completed_at_ms: None,
            status: RefreshTaskStatus::Pending,
        };
        push_task(&mut self.yield_tasks, task);
        self.yield_refresh_pending = true;
        self.yield_task_id_counter = id;
    }

    /// A yield curve arrived: the first pending refresh task is done at `now_ms`, no
    /// refresh is pending any more, and everything is marked for redraw.
    pub fn yield_curve_arrived(&mut self, now_ms: i64)
        ensures
            spec_closed_first_pending(old(self).yield_tasks@, final(self).yield_tasks@,
                RefreshTaskStatus::Done, now_ms),
            *final(self) == (App { yield_tasks: final(self).yield_tasks, yield_refresh_pending: false,
                needs_redraw: true, dirty_flags: DirtyFlags::all_dirty(), ..*old(self) }),
    {
        close_first_pending(&mut self.yield_tasks, RefreshTaskStatus::Done, now_ms);
        self.yield_refresh_pending = false;
        self.mark_dirty();
    }

    /// The backend answered a refresh request: a rejection closes the first pending
    /// task with an error at `now_ms` and clears the pending flag; either way everything
    /// is marked for redraw.
    pub fn yield_refresh_ack(&mut self, ok: bool, now_ms: i64)
        ensures
            ok ==> *final(self) == (App { needs_redraw: true, dirty_flags: DirtyFlags::all_dirty(), ..*old(self) }),
            !ok ==> final(self).yield_tasks@.len() == old(self).yield_tasks@.len()
                && (exists|st: RefreshTaskStatus| #![trigger spec_closed_first_pending(old(self).yield_tasks@,
                    final(self).yield_tasks@, st, now_ms)]
                    (st matches RefreshTaskStatus::Error(m) && m@ == REFRESH_REJECTED_MESSAGE@)
                    && spec_closed_first_pending(old(self).yield_tasks@, final(self).yield_tasks@, st, now_ms))
                && *final(self) == (App { yield_tasks: final(self).yield_tasks, yield_refresh_pending: false,
                    needs_redraw: true, dirty_flags: DirtyFlags::all_dirty(), ..*old(self) }),
    {
        if !ok {
            let st = RefreshTaskStatus::Error(copy_str(REFRESH_REJECTED_MESSAGE));
            let ghost g = st;
            close_first_pending(&mut self.yield_tasks, st, now_ms);
            self.yield_refresh_pending = false;
            assert(spec_closed_first_pending(old(self).yield_tasks@, self.yield_tasks@, g, now_ms));
        }
        self.mark_dirty();
    }

    /// The periodic check: on the Loans tab, with no list loaded and none requested, a
    /// loans fetch is due (send it only when `request_loans_fetch` allows).
    pub fn loans_fetch_due(&self) -> (r: bool)
        ensures
            r == (self.active_tab == Tab::Loans && self.loans_list is None && !self.loans_fetch_pending
                && self.wiring.loans_fetch),
    {
        self.active_tab == Tab::Loans && self.loans_list.is_none() && self.request_loans_fetch()
    }
}

/// Alerts kept in the snapshot: the newest 32.
pub const MAX_SNAPSHOT_ALERTS: usize = 32;

/// The last `n` items of `s` (all of them when there are no more than `n`).
pub open spec fn spec_keep_last<T>(s: Seq<T>, n: nat) -> Seq<T> {
    if s.len() > n { s.subrange(s.len() - n, s.len() as int) } else { s }
}

/// Append a received alert and drop the oldest beyond `MAX_SNAPSHOT_ALERTS`.
pub fn push_alert<T>(alerts: &mut Vec<T>, alert: T)
    ensures
        final(alerts)@ == spec_keep_last(old(alerts)@.push(alert), MAX_SNAPSHOT_ALERTS as nat),
{
    alerts.push(alert);
    let ghost full = alerts@;
    while alerts.len() > MAX_SNAPSHOT_ALERTS
        invariant
            alerts@.len() >= MAX_SNAPSHOT_ALERTS || alerts@ == full,
            full.len() >= alerts@.len(),
            alerts@ == full.subrange(full.len() - alerts@.len(), full.len() as int),
        decreases alerts@.len(),
    {
        let _ = alerts.remove(0);
    }
    proof {
        if full.len() <= MAX_SNAPSHOT_ALERTS as nat {
            assert(alerts@ =~= full);
        }
    }
}

} // verus!
