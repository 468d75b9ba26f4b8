//! Terminal feedback primitives: toast notifications and status indicators.
//!
//! Toast times are milliseconds on the manager's monotonic clock. A toast is active
//! while its expiry lies strictly after the current time.
use vstd::prelude::*;
use crate::clock::MonotonicClock;
use crate::text::{chars_of, is_whitespace, push_char, spec_is_whitespace, str_eq, copy_str};

verus! {

/// Maximum number of toasts displayed simultaneously.
pub const MAX_VISIBLE_TOASTS: usize = 3;
/// Default toast display duration in milliseconds.
pub const DEFAULT_TOAST_DURATION_MS: u64 = 4000;
/// Error toast display duration in milliseconds.
pub const ERROR_TOAST_DURATION_MS: u64 = 6000;
/// Cap on queued toasts (including expired ones until the next cleanup).
pub const MAX_QUEUED_TOASTS: usize = 32;

/// Severity level for toast notifications (`Info` is lowest; `Error` is highest).
#[derive(Debug, Clone, Copy, PartialEq, Eq, Structural, PartialOrd, Ord)]
pub enum ToastLevel {
    Info,
    Success,
    Warning,
    Error,
}

/// Numeric severity of a level.
pub open spec fn spec_level_rank(l: ToastLevel) -> int {
    match l {
        ToastLevel::Info => 0,
        ToastLevel::Success => 1,
        ToastLevel::Warning => 2,
        ToastLevel::Error => 3,
    }
}

/// The more severe of two levels.
pub open spec fn spec_max_level(a: ToastLevel, b: ToastLevel) -> ToastLevel {
    if spec_level_rank(a) >= spec_level_rank(b) { a } else { b }
}

/// Display time of a level in milliseconds.
pub open spec fn spec_duration_ms(l: ToastLevel) -> u64 {
    match l {
        ToastLevel::Error => ERROR_TOAST_DURATION_MS,
        _ => DEFAULT_TOAST_DURATION_MS,
    }
}

/// Icon of a level.
pub open spec fn spec_level_icon(l: ToastLevel) -> Seq<char> {
    match l {
        ToastLevel::Info => "ℹ"@,
        ToastLevel::Success => "✓"@,
        ToastLevel::Warning => "⚠"@,
        ToastLevel::Error => "✗"@,
    }
}

impl ToastLevel {
    /// Numeric severity (0 = Info ... 3 = Error).
    pub fn rank(&self) -> (r: u8)
        ensures
            r as int == spec_level_rank(*self),
    {
        match self {
            ToastLevel::Info => 0,
            ToastLevel::Success => 1,
            ToastLevel::Warning => 2,
            ToastLevel::Error => 3,
        }
    }

    /// The more severe of `self` and `other`.
    pub fn max_with(&self, other: ToastLevel) -> (r: ToastLevel)
        ensures
            r == spec_max_level(*self, other),
    {
        if self.rank() >= other.rank() { *self } else { other }
    }

    /// Get the icon/symbol for this toast level.
    pub fn icon(&self) -> (r: &'static str)
        ensures
            r@ == spec_level_icon(*self),
    {
        match self {
            ToastLevel::Info => "ℹ",
            ToastLevel::Success => "✓",
            ToastLevel::Warning => "⚠",
            ToastLevel::Error => "✗",
        }
    }

    /// Display duration of this level in milliseconds (errors stay longer).
    pub fn duration(&self) -> (r: u64)
        ensures
            r == spec_duration_ms(*self),
    {
        match self {
            ToastLevel::Error => ERROR_TOAST_DURATION_MS,
            _ => DEFAULT_TOAST_DURATION_MS,
        }
    }
}

/// One step of whitespace normalization: `(text so far, inside a word)`.
pub open spec fn spec_norm_step(st: (Seq<char>, bool), c: char) -> (Seq<char>, bool) {
    if spec_is_whitespace(c) {
        (st.0, false)
    } else if st.1 || st.0.len() == 0 {
        (st.0.push(c), true)
    } else {
        (st.0.push(' ').push(c), true)
    }
}

/// Normalization state after reading all of `s`.
pub open spec fn spec_norm_state(s: Seq<char>) -> (Seq<char>, bool)
    decreases s.len(),
{
    if s.len() == 0 {
        (Seq::<char>::empty(), false)
    } else {
        spec_norm_step(spec_norm_state(s.drop_last()), s.last())
    }
}

/// The words of `s` (maximal runs of non-whitespace) joined by single spaces.
pub open spec fn spec_normalize(s: Seq<char>) -> Seq<char> {
    spec_norm_state(s).0
}

/// Normalize a message for dedupe: runs of whitespace collapse to one space and the
/// ends are trimmed, so near-identical strings match.
pub fn normalize_toast_message(msg: &str) -> (r: String)
    ensures
        r@ == spec_normalize(msg@),
{
    let v = chars_of(msg);
    let mut out = String::new();
    let mut in_word = false;
    let mut i: usize = 0;
    while i < v.len()
        invariant
            i <= v@.len(),
            (out@, in_word) == spec_norm_state(v@.subrange(0, i as int)),
        decreases v@.len() - i,
    {
        let c = v[i];
        assert(v@.subrange(0, i + 1).drop_last() =~= v@.subrange(0, i as int));
        if is_whitespace(c) {
            in_word = false;
        } else if in_word || out.unicode_len() == 0 {
            push_char(&mut out, c);
            in_word = true;
        } else {
            push_char(&mut out, ' ');
            push_char(&mut out, c);
            in_word = true;
        }
        i = i + 1;
    }
    assert(v@.subrange(0, v@.len() as int) =~= v@);
    out
}

/// Abstract content of a toast.
pub ghost struct ToastView {
    pub id: u64,
    pub message: Seq<char>,
    pub level: ToastLevel,
    pub created_at_ms: u64,
    pub expires_at_ms: u64,
}

/// A single toast notification.
#[derive(Debug, Clone)]
pub struct Toast {
    /// Unique identifier for this toast.
    pub id: u64,
    /// The message to display.
    pub message: String,
    /// Severity level.
    pub level: ToastLevel,
    /// When this toast was created (manager clock, ms).
    pub created_at_ms: u64,
    /// When this toast expires (manager clock, ms).
    pub expires_at_ms: u64,
}

impl View for Toast {
    type V = ToastView;

    open spec fn view(&self) -> ToastView {
        ToastView {
            id: self.id,
            message: self.message@,
            level: self.level,
            created_at_ms: self.created_at_ms,
            expires_at_ms: self.expires_at_ms,
        }
    }
}

/// Whether a toast is still shown at time `now`.
pub open spec fn spec_active(t: ToastView, now: u64) -> bool {
    t.expires_at_ms > now
}

/// Number of `true` entries.
pub open spec fn spec_count_true(a: Seq<bool>) -> nat
    decreases a.len(),
{
    if a.len() == 0 {
        0
    } else {
        spec_count_true(a.drop_last()) + if a.last() { 1nat } else { 0nat }
    }
}

/// Activity flags of the toasts of `ts` at `now`.
pub open spec fn spec_active_flags(ts: Seq<ToastView>, now: u64) -> Seq<bool> {
    Seq::new(ts.len(), |j: int| spec_active(ts[j], now))
}

proof fn lemma_count_mono(a: Seq<bool>, b: Seq<bool>)
    requires
        a.len() == b.len(),
        forall|j: int| 0 <= j < a.len() && #[trigger] a[j] ==> b[j],
    ensures
        spec_count_true(a) <= spec_count_true(b),
    decreases a.len(),
{
    if a.len() > 0 {
        let a1 = a.drop_last();
        let b1 = b.drop_last();
        assert forall|j: int| 0 <= j < a1.len() && #[trigger] a1[j] implies b1[j] by {
            assert(a[j]);
        }
        lemma_count_mono(a1, b1);
    }
}

proof fn lemma_count_eq(a: Seq<bool>, b: Seq<bool>)
    requires
        a.len() == b.len(),
        forall|j: int| 0 <= j < a.len() && #[trigger] a[j] ==> b[j],
        spec_count_true(a) >= spec_count_true(b),
    ensures
        forall|j: int| 0 <= j < a.len() ==> a[j] == b[j],
    decreases a.len(),
{
    if a.len() > 0 {
        let a1 = a.drop_last();
        let b1 = b.drop_last();
        assert forall|j: int| 0 <= j < a1.len() && #[trigger] a1[j] implies b1[j] by {
            assert(a[j]);
        }
        lemma_count_mono(a1, b1);
        if b.last() && !a.last() {
            assert(false);
        }
        lemma_count_eq(a1, b1);
        assert forall|j: int| 0 <= j < a.len() implies a[j] == b[j] by {
            if j < a.len() - 1 {
                assert(a1[j] == b1[j]);
            }
        }
    }
}

proof fn lemma_count_update(a: Seq<bool>, j: int)
    requires
        0 <= j < a.len(),
        !a[j],
    ensures
        spec_count_true(a.update(j, true)) == spec_count_true(a) + 1,
    decreases a.len(),
{
    let u = a.update(j, true);
    if j == a.len() - 1 {
        assert(u.drop_last() =~= a.drop_last());
    } else {
        assert(u.drop_last() =~= a.drop_last().update(j, true));
        lemma_count_update(a.drop_last(), j);
    }
}

proof fn lemma_count_zero(n: nat)
    ensures
        spec_count_true(Seq::new(n, |j: int| false)) == 0,
    decreases n,
{
    if n > 0 {
        assert(Seq::new(n, |j: int| false).drop_last() =~= Seq::new((n - 1) as nat, |j: int| false));
        lemma_count_zero((n - 1) as nat);
    }
}

proof fn lemma_count_bound(a: Seq<bool>)
    ensures
        spec_count_true(a) <= a.len(),
    decreases a.len(),
{
    if a.len() > 0 {
        lemma_count_bound(a.drop_last());
    }
}

proof fn lemma_count_active(ts: Seq<ToastView>, now: u64)
    ensures
        spec_count_true(spec_active_flags(ts, now)) == spec_retain_active(ts, now).len(),
    decreases ts.len(),
{
    if ts.len() > 0 {
        assert(spec_active_flags(ts, now).drop_last() =~= spec_active_flags(ts.drop_last(), now));
        lemma_count_active(ts.drop_last(), now);
    }
}

/// Views of a sequence of toasts.
pub open spec fn toasts_view(v: Seq<Toast>) -> Seq<ToastView> {
    v.map_values(|t: Toast| t@)
}

/// Views of a sequence of toast references.
pub open spec fn toast_refs_view(v: Seq<&Toast>) -> Seq<ToastView> {
    v.map_values(|t: &Toast| t@)
}

/// Whether toast `i` of `ts` is an active duplicate of normalized message `norm`.
pub open spec fn spec_is_dup(ts: Seq<ToastView>, norm: Seq<char>, now: u64, i: int) -> bool {
    0 <= i < ts.len() && spec_active(ts[i], now) && spec_normalize(ts[i].message) == norm
}

/// Whether `i` is the first active duplicate of `norm` in `ts`.
pub open spec fn spec_is_first_dup(ts: Seq<ToastView>, norm: Seq<char>, now: u64, i: int) -> bool {
    spec_is_dup(ts, norm, now, i) && forall|j: int| 0 <= j < i ==> !spec_is_dup(ts, norm, now, j)
}

/// Position of the first active duplicate of `norm`, if any.
pub open spec fn spec_first_dup(ts: Seq<ToastView>, norm: Seq<char>, now: u64) -> Option<int> {
    if exists|i: int| spec_is_first_dup(ts, norm, now, i) {
        Some(choose|i: int| spec_is_first_dup(ts, norm, now, i))
    } else {
        None
    }
}

/// The expiry of a toast shown at `now` for `d` milliseconds, saturating at `u64::MAX`.
pub open spec fn spec_expiry(now: u64, d: u64) -> u64 {
    if now + d <= u64::MAX { (now + d) as u64 } else { u64::MAX }
}

/// Queue and next id after pushing `msg` at `level` at time `now` (before trimming):
/// an active toast with the same normalized text is refreshed (new wording, severity
/// raised to the higher level, expiry reset) and moved to the back; otherwise a new toast
/// with the next id is appended.
pub open spec fn spec_after_push(
    ts: Seq<ToastView>,
    next_id: u64,
    msg: Seq<char>,
    level: ToastLevel,
    now: u64,
) -> (Seq<ToastView>, u64) {
    let norm = spec_normalize(msg);
    let dup = spec_first_dup(ts, norm, now);
    if norm.len() > 0 && dup is Some {
        let i = dup->0;
        let t = ts[i];
        let lvl = spec_max_level(t.level, level);
        let t2 = ToastView {
            id: t.id,
            message: msg,
            level: lvl,
            created_at_ms: t.created_at_ms,
            expires_at_ms: spec_expiry(now, spec_duration_ms(lvl)),
        };
        (ts.remove(i).push(t2), next_id)
    } else {
        let t = ToastView {
            id: next_id,
            message: msg,
            level,
            created_at_ms: now,
            expires_at_ms: spec_expiry(now, spec_duration_ms(level)),
        };
        (ts.push(t), (next_id + 1) as u64)
    }
}

/// The newest `max` entries of `ts` (oldest ones dropped from the front).
pub open spec fn spec_trim_front(ts: Seq<ToastView>, max: nat) -> Seq<ToastView> {
    if ts.len() > max {
        ts.skip(ts.len() - max)
    } else {
        ts
    }
}

/// The toasts of `ts` active at `now`, in queue order.
pub open spec fn spec_retain_active(ts: Seq<ToastView>, now: u64) -> Seq<ToastView>
    decreases ts.len(),
{
    if ts.len() == 0 {
        ts
    } else {
        let prev = spec_retain_active(ts.drop_last(), now);
        if spec_active(ts.last(), now) { prev.push(ts.last()) } else { prev }
    }
}

/// The toasts of `ts` whose id differs from `id`, in queue order.
pub open spec fn spec_retain_not_id(ts: Seq<ToastView>, id: u64) -> Seq<ToastView>
    decreases ts.len(),
{
    if ts.len() == 0 {
        ts
    } else {
        let prev = spec_retain_not_id(ts.drop_last(), id);
        if ts.last().id != id { prev.push(ts.last()) } else { prev }
    }
}

/// Ordering key of toasts for prominence: severity first, then id.
pub open spec fn spec_key_lt(a: ToastView, b: ToastView) -> bool {
    spec_level_rank(a.level) < spec_level_rank(b.level) || (spec_level_rank(a.level)
        == spec_level_rank(b.level) && a.id < b.id)
}

/// Most prominent active toast: highest severity, then highest id; among equal keys the
/// later one in queue order.
pub open spec fn spec_latest_active(ts: Seq<ToastView>, now: u64) -> Option<ToastView>
    decreases ts.len(),
{
    if ts.len() == 0 {
        None
    } else {
        let prev = spec_latest_active(ts.drop_last(), now);
        let t = ts.last();
        if spec_active(t, now) && (prev is None || !spec_key_lt(t, prev->0)) {
            Some(t)
        } else {
            prev
        }
    }
}

/// Abstract state of a toast manager.
pub ghost struct ToastManagerView {
    pub toasts: Seq<ToastView>,
    pub next_id: u64,
}

/// `after` is the manager state after pushing `msg` at `level` at time `now` onto
/// `before`; an exhausted id counter (where the id increment would overflow) leaves the
/// state unchanged.
pub open spec fn spec_pushed(
    before: ToastManagerView,
    after: ToastManagerView,
    msg: Seq<char>,
    level: ToastLevel,
    now: u64,
) -> bool {
    let (q, n) = spec_after_push(before.toasts, before.next_id, msg, level, now);
    if before.next_id < u64::MAX {
        after.toasts == spec_trim_front(q, MAX_QUEUED_TOASTS as nat) && after.next_id == n
    } else {
        after == before
    }
}

/// Toast notification manager.
#[derive(Debug)]
pub struct ToastManager {
    /// Queue of toasts, oldest first.
    toasts: Vec<Toast>,
    /// Counter for generating unique ids.
    next_id: u64,
    /// Maximum number of toasts to keep.
    max_history: usize,
    /// Time source for expiry.
    clock: MonotonicClock,
}

impl View for ToastManager {
    type V = ToastManagerView;

    closed spec fn view(&self) -> ToastManagerView {
        ToastManagerView { toasts: toasts_view(self.toasts@), next_id: self.next_id }
    }
}

/// Toast ids in `ts` are pairwise distinct and all below `next_id`.
pub open spec fn spec_ids_ok(ts: Seq<ToastView>, next_id: u64) -> bool {
    &&& forall|i: int, j: int| 0 <= i < j < ts.len() ==> ts[i].id != ts[j].id
    &&& forall|i: int| 0 <= i < ts.len() ==> ts[i].id < next_id
}

impl ToastManager {
    #[verifier::type_invariant]
    closed spec fn inv(self) -> bool {
        &&& self.max_history == MAX_QUEUED_TOASTS
        &&& self.toasts@.len() <= MAX_QUEUED_TOASTS
        &&& spec_ids_ok(toasts_view(self.toasts@), self.next_id)
    }

    /// Create a new toast manager with an empty queue.
    pub fn new() -> (r: Self)
        ensures
            r@.toasts == Seq::<ToastView>::empty(),
            r@.next_id == 1,
    {
        let r = ToastManager {
            toasts: Vec::new(),
            next_id: 1,
            max_history: MAX_QUEUED_TOASTS,
            clock: MonotonicClock::new(),
        };
        assert(toasts_view(r.toasts@) =~= Seq::<ToastView>::empty());
        r
    }

    /// Position of the first active toast whose normalized message is `norm`.
    fn find_first_dup(&self, norm: &str, now: u64) -> (r: Option<usize>)
        ensures
            r is Some ==> spec_is_first_dup(self@.toasts, norm@, now, r->0 as int),
            r is None ==> forall|i: int| !spec_is_dup(self@.toasts, norm@, now, i),
    {
        let ghost ts = self@.toasts;
        let mut i: usize = 0;
        while i < self.toasts.len()
            invariant
                ts == toasts_view(self.toasts@),
                i <= self.toasts@.len(),
                forall|j: int| 0 <= j < i ==> !spec_is_dup(ts, norm@, now, j),
            decreases self.toasts@.len() - i,
        {
            let t = &self.toasts[i];
            if t.expires_at_ms > now {
                let n = normalize_toast_message(t.message.as_str());
                if str_eq(n.as_str(), norm) {
                    return Some(i);
                }
            }
            i = i + 1;
        }
        None
    }

    /// Push a toast at time `now`.
    ///
    /// Policy: an active toast with the same normalized message is refreshed (TTL reset,
    /// severity raised if the new level is higher, wording updated) and moved to the back
    /// of the queue instead of adding a duplicate row. The queue keeps the newest
    /// `MAX_QUEUED_TOASTS` entries.
    pub fn push_at(&mut self, message: &str, level: ToastLevel, now: u64)
        requires
            old(self)@.next_id < u64::MAX,
        ensures
            ({
                let (q, n) = spec_after_push(old(self)@.toasts, old(self)@.next_id, message@, level, now);
                &&& final(self)@.toasts == spec_trim_front(q, MAX_QUEUED_TOASTS as nat)
                &&& final(self)@.next_id == n
            }),
    {
        proof {
            use_type_invariant(&*self);
        }
        let ghost ts0 = self@.toasts;
        let ghost id0 = self@.next_id;
        let norm = normalize_toast_message(message);
        let msg = copy_str(message);
        let found = if norm.as_str().unicode_len() > 0 {
            self.find_first_dup(norm.as_str(), now)
        } else {
            None
        };
        proof {
            if let Some(i) = found {
                assert forall|k: int| spec_is_first_dup(ts0, norm@, now, k) implies k == i as int by {
                    if k < i as int {
                        assert(!spec_is_dup(ts0, norm@, now, k));
                    } else if k > i as int {
                        assert(!spec_is_dup(ts0, norm@, now, i as int));
                    }
                }
            }
        }
        let mut ts: Vec<Toast> = Vec::new();
        std::mem::swap(&mut ts, &mut self.toasts);
        assert(toasts_view(ts@) == ts0);
        let mut new_next = self.next_id;
        match found {
            Some(pos) => {
                let mut t = ts.remove(pos);
                let lvl = t.level.max_with(level);
                t.message = msg;
                t.level = lvl;
                t.expires_at_ms = now.saturating_add(lvl.duration());
                ts.push(t);
                proof {
                    let v = toasts_view(ts@);
                    let r = ts0.remove(pos as int);
                    assert forall|a: int| 0 <= a < r.len() implies v[a] == r[a] by {}
                    assert forall|a: int| 0 <= a < r.len() implies #[trigger] r[a] == (if a < pos { ts0[a] } else { ts0[a + 1] }) by {}
                    assert forall|a: int, b: int| 0 <= a < b < v.len() implies v[a].id != v[b].id by {
                        if b == v.len() - 1 {
                            if a < pos {
                                assert(r[a] == ts0[a]);
                            } else {
                                assert(r[a] == ts0[a + 1]);
                            }
                        } else {
                            if a < pos {
                                assert(r[a] == ts0[a]);
                            } else {
                                assert(r[a] == ts0[a + 1]);
                            }
                            if b < pos {
                                assert(r[b] == ts0[b]);
                            } else {
                                assert(r[b] == ts0[b + 1]);
                            }
                        }
                    }
                    assert(spec_ids_ok(v, new_next));
                }
            },
            None => {
                let t = Toast {
                    id: new_next,
                    message: msg,
                    level,
                    created_at_ms: now,
                    expires_at_ms: now.saturating_add(level.duration()),
                };
                ts.push(t);
                new_next = new_next + 1;
                proof {
                    let v = toasts_view(ts@);
                    assert forall|a: int| 0 <= a < v.len() - 1 implies v[a] == ts0[a] by {}
                    assert(spec_ids_ok(v, new_next));
                }
            },
        }
        let ghost q = toasts_view(ts@);
        assert(q =~= spec_after_push(ts0, id0, message@, level, now).0);
        if ts.len() > MAX_QUEUED_TOASTS {
            ts.remove(0);
            proof {
                let v = toasts_view(ts@);
                assert forall|a: int| 0 <= a < v.len() implies v[a] == q[a + 1] by {}
                assert(v =~= q.skip(1));
            }
        }
        self.next_id = new_next;
        self.toasts = ts;
    }

    /// Push a toast at the current time (see `push_at`). Only an exhausted id counter
    /// (`u64::MAX` toasts already created, where the id increment would overflow) leaves
    /// the queue unchanged.
    pub fn push(&mut self, message: &str, level: ToastLevel)
        ensures
            exists|now: u64| #[trigger] spec_pushed(old(self)@, final(self)@, message@, level, now),
    {
        let now = self.clock.now_ms();
        let ghost before = self@;
        if self.next_id < u64::MAX {
            self.push_at(message, level, now);
        }
        assert(spec_pushed(before, self@, message@, level, now));
    }

    /// Push an info toast.
    pub fn info(&mut self, message: &str)
        ensures
            exists|now: u64| #[trigger] spec_pushed(old(self)@, final(self)@, message@, ToastLevel::Info, now),
    {
        self.push(message, ToastLevel::Info);
    }

    /// Push a success toast.
    pub fn success(&mut self, message: &str)
        ensures
            exists|now: u64| #[trigger] spec_pushed(old(self)@, final(self)@, message@, ToastLevel::Success, now),
    {
        self.push(message, ToastLevel::Success);
    }

    /// Push a warning toast.
    pub fn warning(&mut self, message: &str)
        ensures
            exists|now: u64| #[trigger] spec_pushed(old(self)@, final(self)@, message@, ToastLevel::Warning, now),
    {
        self.push(message, ToastLevel::Warning);
    }

    /// Push an error toast.
    pub fn error(&mut self, message: &str)
        ensures
            exists|now: u64| #[trigger] spec_pushed(old(self)@, final(self)@, message@, ToastLevel::Error, now),
    {
        self.push(message, ToastLevel::Error);
    }

    /// Remove toasts expired at `now`; returns whether any were removed.
    pub fn cleanup_expired_at(&mut self, now: u64) -> (r: bool)
        ensures
            final(self)@.toasts == spec_retain_active(old(self)@.toasts, now),
            final(self)@.next_id == old(self)@.next_id,
            r == (final(self)@.toasts.len() != old(self)@.toasts.len()),
    {
        proof {
            use_type_invariant(&*self);
        }
        let ghost ts0 = self@.toasts;
        let mut ts: Vec<Toast> = Vec::new();
        std::mem::swap(&mut ts, &mut self.toasts);
        let before = ts.len();
        let mut kept: Vec<Toast> = Vec::new();
        let mut rest: Vec<Toast> = ts;
        let mut i: usize = 0;
        let ghost mut idx: Seq<int> = Seq::empty();
        while rest.len() > 0
            invariant
                i + rest@.len() == ts0.len(),
                ts0.len() <= MAX_QUEUED_TOASTS,
                kept@.len() <= i,
                forall|k: int| 0 <= k < rest@.len() ==> rest@[k]@ == ts0[i + k],
                toasts_view(kept@) == spec_retain_active(ts0.subrange(0, i as int), now),
                idx.len() == kept@.len(),
                forall|a: int| 0 <= a < idx.len() ==> 0 <= #[trigger] idx[a] < i && kept@[a]@ == ts0[idx[a]],
                forall|a: int, c: int| 0 <= a < c < idx.len() ==> #[trigger] idx[a] < #[trigger] idx[c],
            decreases rest@.len(),
        {
            let t = rest.remove(0);
            assert(ts0.subrange(0, i + 1).drop_last() =~= ts0.subrange(0, i as int));
            let ghost k0 = kept@;
            if t.expires_at_ms > now {
                kept.push(t);
                proof {
                    idx = idx.push(i as int);
                    assert(toasts_view(kept@) =~= toasts_view(k0).push(t@));
                }
            }
            i = i + 1;
        }
        assert(ts0.subrange(0, ts0.len() as int) =~= ts0);
        let changed = kept.len() != before;
        proof {
            let v = toasts_view(kept@);
            assert forall|a: int, c: int| 0 <= a < c < v.len() implies v[a].id != v[c].id by {
                assert(idx[a] < idx[c]);
            }
            assert forall|a: int| 0 <= a < v.len() implies v[a].id < self.next_id by {
                assert(kept@[a]@ == ts0[idx[a]]);
            }
        }
        self.toasts = kept;
        changed
    }

    /// Remove toasts that have expired; returns whether any were removed.
    pub fn cleanup_expired(&mut self) -> (r: bool)
        ensures
            exists|now: u64| final(self)@.toasts == spec_retain_active(old(self)@.toasts, now),
            final(self)@.next_id == old(self)@.next_id,
            r == (final(self)@.toasts.len() != old(self)@.toasts.len()),
    {
        let now = self.clock.now_ms();
        self.cleanup_expired_at(now)
    }

    /// The toasts active at `now`, in queue order.
    pub fn active_toasts_at(&self, now: u64) -> (r: Vec<&Toast>)
        ensures
            toast_refs_view(r@) == spec_retain_active(self@.toasts, now),
    {
        let ghost ts = self@.toasts;
        let mut out: Vec<&Toast> = Vec::new();
        let mut i: usize = 0;
        while i < self.toasts.len()
            invariant
                ts == toasts_view(self.toasts@),
                i <= self.toasts@.len(),
                toast_refs_view(out@) == spec_retain_active(ts.subrange(0, i as int), now),
            decreases self.toasts@.len() - i,
        {
            let t = &self.toasts[i];
            assert(ts.subrange(0, i + 1).drop_last() =~= ts.subrange(0, i as int));
            let ghost o0 = out@;
            if t.expires_at_ms > now {
                out.push(t);
                assert(toast_refs_view(out@) =~= toast_refs_view(o0).push(t@));
            }
            i = i + 1;
        }
        assert(ts.subrange(0, ts.len() as int) =~= ts);
        out
    }

    /// Number of toasts active at `now`.
    pub fn active_count_at(&self, now: u64) -> (r: usize)
        ensures
            r == spec_retain_active(self@.toasts, now).len(),
    {
        let v = self.active_toasts_at(now);
        v.len()
    }

    /// Whether any toast is active at `now`.
    pub fn has_active_at(&self, now: u64) -> (r: bool)
        ensures
            r == (spec_retain_active(self@.toasts, now).len() > 0),
    {
        self.active_count_at(now) > 0
    }

    /// Currently active (non-expired) toasts, in queue order.
    pub fn active_toasts(&self) -> (r: Vec<&Toast>)
        ensures
            exists|now: u64| toast_refs_view(r@) == #[trigger] spec_retain_active(self@.toasts, now),
    {
        let now = self.clock.now_ms();
        self.active_toasts_at(now)
    }

    /// Number of currently active toasts.
    pub fn active_count(&self) -> (r: usize)
        ensures
            exists|now: u64| r == #[trigger] spec_retain_active(self@.toasts, now).len(),
    {
        let now = self.clock.now_ms();
        self.active_count_at(now)
    }

    /// Whether any toast is currently active.
    pub fn has_active(&self) -> (r: bool)
        ensures
            exists|now: u64| r == (#[trigger] spec_retain_active(self@.toasts, now).len() > 0),
    {
        let now = self.clock.now_ms();
        self.has_active_at(now)
    }

    /// Dismiss a specific toast by id.
    pub fn dismiss(&mut self, id: u64)
        ensures
            final(self)@.toasts == spec_retain_not_id(old(self)@.toasts, id),
            final(self)@.next_id == old(self)@.next_id,
    {
        proof {
            use_type_invariant(&*self);
        }
        let ghost ts0 = self@.toasts;
        let mut ts: Vec<Toast> = Vec::new();
        std::mem::swap(&mut ts, &mut self.toasts);
        let mut kept: Vec<Toast> = Vec::new();
        let mut rest: Vec<Toast> = ts;
        let mut i: usize = 0;
        let ghost mut idx: Seq<int> = Seq::empty();
        while rest.len() > 0
            invariant
                i + rest@.len() == ts0.len(),
                ts0.len() <= MAX_QUEUED_TOASTS,
                kept@.len() <= i,
                forall|k: int| 0 <= k < rest@.len() ==> rest@[k]@ == ts0[i + k],
                toasts_view(kept@) == spec_retain_not_id(ts0.subrange(0, i as int), id),
                idx.len() == kept@.len(),
                forall|a: int| 0 <= a < idx.len() ==> 0 <= #[trigger] idx[a] < i && kept@[a]@ == ts0[idx[a]],
                forall|a: int, c: int| 0 <= a < c < idx.len() ==> #[trigger] idx[a] < #[trigger] idx[c],
            decreases rest@.len(),
        {
            let t = rest.remove(0);
            assert(ts0.subrange(0, i + 1).drop_last() =~= ts0.subrange(0, i as int));
            let ghost k0 = kept@;
            if t.id != id {
                kept.push(t);
                proof {
                    idx = idx.push(i as int);
                    assert(toasts_view(kept@) =~= toasts_view(k0).push(t@));
                }
            }
            i = i + 1;
        }
        assert(ts0.subrange(0, ts0.len() as int) =~= ts0);
        proof {
            let v = toasts_view(kept@);
            assert forall|a: int, c: int| 0 <= a < c < v.len() implies v[a].id != v[c].id by {
                assert(idx[a] < idx[c]);
            }
            assert forall|a: int| 0 <= a < v.len() implies v[a].id < self.next_id by {
                assert(kept@[a]@ == ts0[idx[a]]);
            }
        }
        self.toasts = kept;
    }

    /// Dismiss all toasts.
    pub fn dismiss_all(&mut self)
        ensures
            final(self)@.toasts == Seq::<ToastView>::empty(),
            final(self)@.next_id == old(self)@.next_id,
    {
        proof {
            use_type_invariant(&*self);
        }
        let empty: Vec<Toast> = Vec::new();
        assert(toasts_view(empty@) =~= Seq::<ToastView>::empty());
        self.toasts = empty;
    }

    /// Most prominent toast active at `now`: highest severity first, then newest id.
    pub fn latest_active_toast_at(&self, now: u64) -> (r: Option<&Toast>)
        ensures
            r is None ==> spec_latest_active(self@.toasts, now) is None,
            r is Some ==> spec_latest_active(self@.toasts, now) == Some(r->0@),
    {
        let ghost ts = self@.toasts;
        let mut best: Option<&Toast> = None;
        let mut i: usize = 0;
        while i < self.toasts.len()
            invariant
                ts == toasts_view(self.toasts@),
                i <= self.toasts@.len(),
                best is None ==> spec_latest_active(ts.subrange(0, i as int), now) is None,
                best is Some ==> spec_latest_active(ts.subrange(0, i as int), now) == Some(best->0@),
            decreases self.toasts@.len() - i,
        {
            let t = &self.toasts[i];
            assert(ts.subrange(0, i + 1).drop_last() =~= ts.subrange(0, i as int));
            assert(ts.subrange(0, i + 1).last() == t@);
            if t.expires_at_ms > now {
                match best {
                    None => {
                        best = Some(t);
                    },
                    Some(b) => {
                        let tr = t.level.rank();
                        let br = b.level.rank();
                        let t_lt = tr < br || (tr == br && t.id < b.id);
                        if !t_lt {
                            best = Some(t);
                        }
                    },
                }
            }
            i = i + 1;
        }
        assert(ts.subrange(0, ts.len() as int) =~= ts);
        best
    }

    /// Most prominent currently active toast (see `latest_active_toast_at`).
    pub fn latest_active_toast(&self) -> (r: Option<&Toast>)
        ensures
            exists|now: u64|
                {
                    &&& r is None ==> #[trigger] spec_latest_active(self@.toasts, now) is None
                    &&& r is Some ==> spec_latest_active(self@.toasts, now) == Some(r->0@)
                },
    {
        let now = self.clock.now_ms();
        self.latest_active_toast_at(now)
    }

    /// Whether toast `x` is one of the toasts of the queue active at `now`.
    pub open spec fn spec_in_active(ts: Seq<ToastView>, now: u64, x: ToastView) -> bool {
        exists|j: int| 0 <= j < ts.len() && spec_active(ts[j], now) && #[trigger] ts[j] == x
    }

    /// Up to `MAX_VISIBLE_TOASTS` toasts active at `now`: severity-first selection (errors
    /// stay visible even when many infos follow), then newest within the same severity.
    /// Returned in chronological id order (oldest first in the batch).
    pub fn visible_toasts_at(&self, now: u64) -> (r: Vec<&Toast>)
        ensures
            spec_ids_ok(self@.toasts, self@.next_id),
            ({
                let v = toast_refs_view(r@);
                let ts = self@.toasts;
                let n = spec_retain_active(ts, now).len();
                &&& forall|a: int, b: int| 0 <= a < b < v.len() ==> v[a].id < v[b].id
                &&& forall|a: int| 0 <= a < v.len() ==> Self::spec_in_active(ts, now, #[trigger] v[a])
                &&& n <= MAX_VISIBLE_TOASTS ==> forall|j: int|
                    0 <= j < ts.len() && spec_active(ts[j], now) ==> v.contains(#[trigger] ts[j])
                &&& n > MAX_VISIBLE_TOASTS ==> v.len() == MAX_VISIBLE_TOASTS
                &&& forall|j: int, a: int|
                    0 <= j < ts.len() && spec_active(ts[j], now) && !v.contains(ts[j]) && 0 <= a
                        < v.len() ==> spec_key_lt(#[trigger] ts[j], #[trigger] v[a])
            }),
    {
        proof {
            use_type_invariant(self);
        }
        let ghost ts = self@.toasts;
        let len = self.toasts.len();
        let n = self.active_count_at(now);
        let limit: usize = if n < MAX_VISIBLE_TOASTS { n } else { MAX_VISIBLE_TOASTS };
        let mut chosen: Vec<bool> = Vec::new();
        let mut z: usize = 0;
        while z < len
            invariant
                z <= len,
                len == ts.len(),
                chosen@.len() == z,
                forall|j: int| 0 <= j < z ==> !chosen@[j],
            decreases len - z,
        {
            chosen.push(false);
            z = z + 1;
        }
        proof {
            assert(chosen@.drop_last().len() == 0 || true);
            lemma_count_mono(chosen@, Seq::new(len as nat, |j: int| false));
            assert(spec_count_true(Seq::new(len as nat, |j: int| false)) == 0) by {
                lemma_count_zero(len as nat);
            }
        }
        let mut k: usize = 0;
        while k < limit
            invariant
                len == ts.len(),
                ts == toasts_view(self.toasts@),
                spec_ids_ok(ts, self@.next_id),
                chosen@.len() == len,
                k <= limit,
                limit <= n,
                n == spec_retain_active(ts, now).len(),
                limit <= MAX_VISIBLE_TOASTS,
                spec_count_true(chosen@) == k,
                forall|j: int| 0 <= j < len && #[trigger] chosen@[j] ==> spec_active(ts[j], now),
                forall|i: int, j: int|
                    0 <= i < len && 0 <= j < len && #[trigger] chosen@[i] && spec_active(ts[j], now)
                        && !#[trigger] chosen@[j] ==> spec_key_lt(ts[j], ts[i]),
            decreases limit - k,
        {
            let mut best: Option<usize> = None;
            let mut j: usize = 0;
            while j < len
                invariant
                    len == ts.len(),
                    ts == toasts_view(self.toasts@),
                    spec_ids_ok(ts, self@.next_id),
                    chosen@.len() == len,
                    j <= len,
                    best is Some ==> ({
                        let b = best->0 as int;
                        &&& b < j
                        &&& spec_active(ts[b], now)
                        &&& !chosen@[b]
                        &&& forall|m: int|
                            0 <= m < j && spec_active(ts[m], now) && !chosen@[m] ==> m == b
                                || spec_key_lt(#[trigger] ts[m], ts[b])
                    }),
                    best is None ==> forall|m: int|
                        0 <= m < j ==> !(spec_active(#[trigger] ts[m], now) && !chosen@[m]),
                decreases len - j,
            {
                let t = &self.toasts[j];
                if t.expires_at_ms > now && !chosen[j] {
                    match best {
                        None => {
                            best = Some(j);
                        },
                        Some(b) => {
                            let bt = &self.toasts[b];
                            let tr = t.level.rank();
                            let br = bt.level.rank();
                            let b_lt_t = br < tr || (br == tr && bt.id < t.id);
                            if b_lt_t {
                                best = Some(j);
                            } else {
                                assert(ts[j as int].id != ts[b as int].id);
                            }
                        },
                    }
                }
                j = j + 1;
            }
            proof {
                if best is None {
                    let af = spec_active_flags(ts, now);
                    assert forall|m: int| 0 <= m < af.len() && #[trigger] af[m] implies chosen@[m] by {
                        assert(ts[m] == ts[m]);
                    }
                    lemma_count_mono(af, chosen@);
                    lemma_count_active(ts, now);
                    assert(false);
                }
            }
            let b = best.unwrap();
            let ghost c0 = chosen@;
            chosen.set(b, true);
            proof {
                lemma_count_update(c0, b as int);
                assert(chosen@ == c0.update(b as int, true));
                assert forall|i: int, m: int|
                    0 <= i < len && 0 <= m < len && #[trigger] chosen@[i] && spec_active(ts[m], now)
                        && !#[trigger] chosen@[m] implies spec_key_lt(ts[m], ts[i]) by {
                    if i == b {
                        assert(m != b);
                        assert(ts[m].id != ts[b as int].id);
                    } else {
                        assert(c0[i]);
                        assert(!c0[m]);
                    }
                }
            }
            k = k + 1;
        }
        let mut out: Vec<&Toast> = Vec::new();
        let mut emitted: Vec<bool> = Vec::new();
        let mut z2: usize = 0;
        while z2 < len
            invariant
                z2 <= len,
                emitted@.len() == z2,
                forall|j: int| 0 <= j < z2 ==> !emitted@[j],
            decreases len - z2,
        {
            emitted.push(false);
            z2 = z2 + 1;
        }
        proof {
            lemma_count_mono(emitted@, Seq::new(len as nat, |j: int| false));
            lemma_count_zero(len as nat);
        }
        let ghost mut src: Seq<int> = Seq::empty();
        loop
            invariant
                len == ts.len(),
                ts == toasts_view(self.toasts@),
                spec_ids_ok(ts, self@.next_id),
                chosen@.len() == len,
                emitted@.len() == len,
                spec_count_true(chosen@) == limit,
                spec_count_true(emitted@) == out@.len(),
                forall|j: int| 0 <= j < len && #[trigger] emitted@[j] ==> chosen@[j],
                src.len() == out@.len(),
                forall|a: int|
                    0 <= a < src.len() ==> 0 <= #[trigger] src[a] < len && emitted@[src[a]]
                        && out@[a]@ == ts[src[a]],
                forall|j: int| 0 <= j < len && #[trigger] emitted@[j] ==> exists|a: int| 0 <= a < src.len() && #[trigger] src[a] == j,
                forall|a: int, c: int| 0 <= a < c < out@.len() ==> out@[a].id < out@[c].id,
                out@.len() > 0 ==> forall|j: int|
                    0 <= j < len && #[trigger] chosen@[j] && !emitted@[j] ==> ts[j].id > out@.last().id,
            ensures
                forall|j: int| 0 <= j < len && #[trigger] chosen@[j] ==> emitted@[j],
            decreases len - spec_count_true(emitted@),
        {
            let mut best: Option<usize> = None;
            let mut j: usize = 0;
            while j < len
                invariant
                    len == ts.len(),
                    ts == toasts_view(self.toasts@),
                    chosen@.len() == len,
                    emitted@.len() == len,
                    j <= len,
                    best is Some ==> ({
                        let b = best->0 as int;
                        &&& b < j
                        &&& chosen@[b]
                        &&& !emitted@[b]
                        &&& forall|m: int|
                            0 <= m < j && chosen@[m] && !emitted@[m] ==> ts[b].id <= #[trigger] ts[m].id
                    }),
                    best is None ==> forall|m: int| 0 <= m < j ==> !(#[trigger] chosen@[m] && !emitted@[m]),
                decreases len - j,
            {
                if chosen[j] && !emitted[j] {
                    match best {
                        None => {
                            best = Some(j);
                        },
                        Some(b) => {
                            if self.toasts[j].id < self.toasts[b].id {
                                best = Some(j);
                            }
                        },
                    }
                }
                j = j + 1;
            }
            match best {
                None => {
                    break;
                },
                Some(m) => {
                    let ghost e0 = emitted@;
                    let ghost o0 = out@;
                    let ghost s0 = src;
                    out.push(&self.toasts[m]);
                    emitted.set(m, true);
                    proof {
                        lemma_count_update(e0, m as int);
                        lemma_count_bound(emitted@);
                        src = src.push(m as int);
                        assert forall|j2: int| 0 <= j2 < len && #[trigger] emitted@[j2] implies exists|a: int| 0 <= a < src.len() && #[trigger] src[a] == j2 by {
                            if j2 == m {
                                assert(src[src.len() - 1] == j2);
                            } else {
                                assert(e0[j2]);
                                let a = choose|a: int| 0 <= a < s0.len() && #[trigger] s0[a] == j2;
                                assert(src[a] == s0[a]);
                            }
                        }
                        assert forall|a: int, c: int| 0 <= a < c < out@.len() implies out@[a].id < out@[c].id by {
                            if c == out@.len() - 1 {
                                if a < o0.len() {
                                    assert(out@[a] == o0[a]);
                                    let sa = src[a];
                                    assert(e0[sa]);
                                    if o0.len() > 0 {
                                        if a == o0.len() - 1 {
                                            assert(ts[m as int].id > o0.last().id);
                                        } else {
                                            assert(o0[a].id < o0.last().id);
                                            assert(ts[m as int].id > o0.last().id);
                                        }
                                    }
                                }
                            } else {
                                assert(out@[a] == o0[a]);
                                assert(out@[c] == o0[c]);
                            }
                        }
                        assert forall|j2: int|
                            0 <= j2 < len && #[trigger] chosen@[j2] && !emitted@[j2] implies ts[j2].id > out@.last().id by {
                            assert(j2 != m);
                            assert(ts[j2].id != ts[m as int].id);
                        }
                    }
                },
            }
        }
        proof {
            lemma_count_mono(emitted@, chosen@);
            lemma_count_mono(chosen@, emitted@);
            assert(out@.len() == limit);
            let v = toast_refs_view(out@);
            assert forall|a: int| 0 <= a < v.len() implies Self::spec_in_active(ts, now, #[trigger] v[a]) by {
                let sj = src[a];
                assert(chosen@[sj]);
                assert(ts[sj] == v[a]);
            }
            assert forall|j2: int| 0 <= j2 < ts.len() && spec_active(ts[j2], now) && #[trigger] chosen@[j2] implies v.contains(ts[j2]) by {
                let a = choose|a: int| 0 <= a < src.len() && #[trigger] src[a] == j2;
                assert(v[a] == ts[j2]);
            }
            if n <= MAX_VISIBLE_TOASTS {
                let af = spec_active_flags(ts, now);
                lemma_count_active(ts, now);
                assert forall|m: int| 0 <= m < len && #[trigger] chosen@[m] implies af[m] by {}
                lemma_count_eq(chosen@, af);
                assert forall|j2: int| 0 <= j2 < ts.len() && spec_active(ts[j2], now) implies v.contains(#[trigger] ts[j2]) by {
                    assert(af[j2]);
                    assert(chosen@[j2]);
                }
            }
            assert forall|j2: int, a: int|
                0 <= j2 < ts.len() && spec_active(ts[j2], now) && !v.contains(ts[j2]) && 0 <= a < v.len()
                    implies spec_key_lt(#[trigger] ts[j2], #[trigger] v[a]) by {
                if chosen@[j2] {
                    assert(v.contains(ts[j2]));
                }
                let sa = src[a];
                assert(chosen@[sa]);
                assert(v[a] == ts[sa]);
            }
        }
        out
    }

    /// Up to `MAX_VISIBLE_TOASTS` currently active toasts (see `visible_toasts_at`).
    pub fn visible_toasts(&self) -> (r: Vec<&Toast>)
        ensures
            exists|now: u64| #[trigger] Self::spec_visible(self@.toasts, now, toast_refs_view(r@)),
    {
        let now = self.clock.now_ms();
        let r = self.visible_toasts_at(now);
        assert(Self::spec_visible(self@.toasts, now, toast_refs_view(r@)));
        r
    }

    /// `v` is the visible batch of `ts` at `now` as `visible_toasts_at` describes it.
    pub open spec fn spec_visible(ts: Seq<ToastView>, now: u64, v: Seq<ToastView>) -> bool {
        let n = spec_retain_active(ts, now).len();
        &&& forall|a: int, b: int| 0 <= a < b < v.len() ==> v[a].id < v[b].id
        &&& forall|a: int| 0 <= a < v.len() ==> Self::spec_in_active(ts, now, #[trigger] v[a])
        &&& n <= MAX_VISIBLE_TOASTS ==> forall|j: int|
            0 <= j < ts.len() && spec_active(ts[j], now) ==> v.contains(#[trigger] ts[j])
        &&& n > MAX_VISIBLE_TOASTS ==> v.len() == MAX_VISIBLE_TOASTS
        &&& forall|j: int, a: int|
            0 <= j < ts.len() && spec_active(ts[j], now) && !v.contains(ts[j]) && 0 <= a < v.len()
                ==> spec_key_lt(#[trigger] ts[j], #[trigger] v[a])
    }

    /// Current time on the manager's clock (ms).
    pub fn now_ms(&self) -> u64 {
        self.clock.now_ms()
    }
}

} // verus!

verus! {

/// Status indicator for connections or operations.
#[derive(Debug, Clone, Copy, PartialEq, Eq, Structural)]
pub enum StatusIndicator {
    /// Operation/connection is idle
    Idle,
    /// Operation/connection is active/working
    Active,
    /// Operation completed successfully
    Success,
    /// Warning state
    Warning,
    /// Error state
    Error,
    /// Operation in progress
    Loading,
}

/// Symbol of a status.
pub open spec fn spec_status_symbol(s: StatusIndicator) -> Seq<char> {
    match s {
        StatusIndicator::Idle => "○"@,
        StatusIndicator::Active => "●"@,
        StatusIndicator::Success => "✓"@,
        StatusIndicator::Warning => "!"@,
        StatusIndicator::Error => "✗"@,
        StatusIndicator::Loading => "◐"@,
    }
}

/// Spinner frame `i` of the four-frame loading animation.
pub open spec fn spec_spinner_frame(i: int) -> Seq<char> {
    if i == 0 {
        "◐"@
    } else if i == 1 {
        "◓"@
    } else if i == 2 {
        "◑"@
    } else {
        "◒"@
    }
}

impl StatusIndicator {
    /// Get the symbol for this status.
    pub fn symbol(&self) -> (r: &'static str)
        ensures
            r@ == spec_status_symbol(*self),
    {
        match self {
            StatusIndicator::Idle => "○",
            StatusIndicator::Active => "●",
            StatusIndicator::Success => "✓",
            StatusIndicator::Warning => "!",
            StatusIndicator::Error => "✗",
            StatusIndicator::Loading => "◐",
        }
    }

    /// Get a spinner frame for the loading state; frames repeat every four steps.
    pub fn spinner(frame: usize) -> (r: &'static str)
        ensures
            r@ == spec_spinner_frame(frame as int % 4),
    {
        let i = frame % 4;
        if i == 0 {
            "◐"
        } else if i == 1 {
            "◓"
        } else if i == 2 {
            "◑"
        } else {
            "◒"
        }
    }
}

} // verus!

verus! {

proof fn lemma_first_dup_exists(ts: Seq<ToastView>, norm: Seq<char>, now: u64, i: int)
    requires
        spec_is_dup(ts, norm, now, i),
    ensures
        spec_first_dup(ts, norm, now) is Some,
        spec_is_first_dup(ts, norm, now, spec_first_dup(ts, norm, now)->0),
    decreases i,
{
    if exists|j: int| 0 <= j < i && spec_is_dup(ts, norm, now, j) {
        let j = choose|j: int| 0 <= j < i && spec_is_dup(ts, norm, now, j);
        lemma_first_dup_exists(ts, norm, now, j);
    } else {
        assert(spec_is_first_dup(ts, norm, now, i));
    }
}

/// Re-pushing a message while its toast is still showing refreshes that toast instead
/// of stacking a second one: the queue length and the id counter are unchanged by the
/// second push.
pub proof fn law_push_dedupes_repeated_message(
    ts: Seq<ToastView>,
    next_id: u64,
    msg: Seq<char>,
    first: ToastLevel,
    second: ToastLevel,
    t1: u64,
    t2: u64,
)
    requires
        spec_ids_ok(ts, next_id),
        next_id < u64::MAX,
        spec_normalize(msg).len() > 0,
        t1 <= t2 < t1 + DEFAULT_TOAST_DURATION_MS,
        t2 < u64::MAX,
    ensures
        ({
            let (q1, n1) = spec_after_push(ts, next_id, msg, first, t1);
            let s1 = spec_trim_front(q1, MAX_QUEUED_TOASTS as nat);
            let (q2, n2) = spec_after_push(s1, n1, msg, second, t2);
            let s2 = spec_trim_front(q2, MAX_QUEUED_TOASTS as nat);
            &&& n2 == n1
            &&& s2.len() == s1.len()
            &&& s2.last().message == msg
            &&& spec_level_rank(s2.last().level) >= spec_level_rank(second)
        }),
{
    let (q1, n1) = spec_after_push(ts, next_id, msg, first, t1);
    let s1 = spec_trim_front(q1, MAX_QUEUED_TOASTS as nat);
    assert(q1.len() > 0);
    assert(q1.last().message == msg);
    assert(spec_active(q1.last(), t2));
    assert(s1.len() > 0);
    assert(s1.last() == q1.last());
    lemma_first_dup_exists(s1, spec_normalize(msg), t2, s1.len() - 1);
}

/// The more severe of two toast levels is at least as severe as each of them and is
/// one of them; an error absorbs any level, and info leaves any level as it is.
pub proof fn law_max_level_keeps_the_higher_severity(a: ToastLevel, b: ToastLevel)
    ensures
        spec_level_rank(spec_max_level(a, b)) >= spec_level_rank(a),
        spec_level_rank(spec_max_level(a, b)) >= spec_level_rank(b),
        spec_max_level(a, b) == a || spec_max_level(a, b) == b,
        spec_max_level(a, ToastLevel::Error) == ToastLevel::Error,
        spec_max_level(ToastLevel::Error, a) == ToastLevel::Error,
        spec_max_level(a, ToastLevel::Info) == a,
        spec_max_level(ToastLevel::Info, a) == a,
{
}

/// Severity ranks increase from info through success and warning to error.
pub proof fn law_level_ranks_increase()
    ensures
        spec_level_rank(ToastLevel::Info) < spec_level_rank(ToastLevel::Success),
        spec_level_rank(ToastLevel::Success) < spec_level_rank(ToastLevel::Warning),
        spec_level_rank(ToastLevel::Warning) < spec_level_rank(ToastLevel::Error),
{
}

/// Pushing a message while an active toast shows the same text refreshes that toast:
/// it moves to the back with the new wording, its id and creation time kept, a level at
/// least as severe as both the one it had and the one pushed (and one of the two), and
/// an expiry counted from the new push for that level.
pub proof fn law_refreshed_toast_keeps_higher_severity(
    ts: Seq<ToastView>,
    next_id: u64,
    msg: Seq<char>,
    level: ToastLevel,
    now: u64,
    i: int,
)
    requires
        spec_normalize(msg).len() > 0,
        spec_first_dup(ts, spec_normalize(msg), now) == Some(i),
    ensures
        ({
            let (q, n) = spec_after_push(ts, next_id, msg, level, now);
            let t = q.last();
            &&& n == next_id
            &&& q.len() == ts.len()
            &&& t.id == ts[i].id
            &&& t.message == msg
            &&& t.created_at_ms == ts[i].created_at_ms
            &&& spec_level_rank(t.level) >= spec_level_rank(ts[i].level)
            &&& spec_level_rank(t.level) >= spec_level_rank(level)
            &&& (t.level == ts[i].level || t.level == level)
            &&& t.expires_at_ms == spec_expiry(now, spec_duration_ms(t.level))
        }),
{
    let norm = spec_normalize(msg);
    assert(spec_is_first_dup(ts, norm, now, i)) by {
        assert(exists|k: int| spec_is_first_dup(ts, norm, now, k));
    }
}

} // verus!
