//! Choosing the live market-data source among those that sent ticks recently.
use vstd::prelude::*;
use crate::text::{
    lemma_str_le_refl, lemma_str_le_total, lemma_str_le_trans, spec_str_le, spec_str_to_lowercase, str_eq,
    str_le, to_lowercase,
};

verus! {

/// Seconds within which a source counts as live.
pub const LIVE_SOURCE_TTL_SECS: u64 = 5;

/// A market-data source as last seen: its name, its priority and how many whole
/// seconds ago it sent a tick.
#[derive(Debug, Clone)]
pub struct SourceSample {
    pub source: String,
    pub priority: u32,
    pub age_secs: u64,
}

/// The characters of an optional string.
pub open spec fn spec_opt_view(o: Option<&str>) -> Option<Seq<char>> {
    match o {
        Some(p) => Some(p@),
        None => None,
    }
}

/// Whether sample `i` is recent enough.
pub open spec fn spec_fresh(s: Seq<SourceSample>, i: int, ttl: u64) -> bool {
    0 <= i < s.len() && s[i].age_secs <= ttl
}

/// Whether a real (non-mock) provider is known: the configured one, or a recent source.
pub open spec fn spec_real_provider(s: Seq<SourceSample>, configured: Option<Seq<char>>, ttl: u64) -> bool {
    (configured matches Some(p) && spec_str_to_lowercase(p) != "mock"@)
        || exists|j: int| #[trigger] spec_fresh(s, j, ttl) && s[j].source@ != "mock"@
}

/// Whether sample `i` may be chosen: recent, and not the mock source when a real
/// provider is known.
pub open spec fn spec_eligible(s: Seq<SourceSample>, i: int, configured: Option<Seq<char>>, ttl: u64) -> bool {
    spec_fresh(s, i, ttl) && !(spec_real_provider(s, configured, ttl) && s[i].source@ == "mock"@)
}

/// The candidates: the eligible samples, or every recent one when none is eligible.
pub open spec fn spec_candidate(s: Seq<SourceSample>, i: int, configured: Option<Seq<char>>, ttl: u64) -> bool {
    if exists|j: int| #[trigger] spec_eligible(s, j, configured, ttl) {
        spec_eligible(s, i, configured, ttl)
    } else {
        spec_fresh(s, i, ttl)
    }
}

/// Whether `a` ranks at least as high as `b`: higher priority, then younger, then the
/// name first in order.
pub open spec fn spec_ranks_before(a: SourceSample, b: SourceSample) -> bool {
    a.priority > b.priority || (a.priority == b.priority && (a.age_secs < b.age_secs
        || (a.age_secs == b.age_secs && spec_str_le(a.source@, b.source@))))
}

proof fn lemma_ranks_order(a: SourceSample, b: SourceSample, c: SourceSample)
    ensures
        spec_ranks_before(a, a),
        spec_ranks_before(a, b) || spec_ranks_before(b, a),
        spec_ranks_before(a, b) && spec_ranks_before(b, c) ==> spec_ranks_before(a, c),
{
    lemma_str_le_refl(a.source@);
    lemma_str_le_total(a.source@, b.source@);
    if spec_str_le(a.source@, b.source@) && spec_str_le(b.source@, c.source@) {
        lemma_str_le_trans(a.source@, b.source@, c.source@);
    }
}

/// While a real provider is known and some source other than the mock one is live,
/// the mock source is never a candidate.
pub proof fn law_mock_yields_to_real_sources(s: Seq<SourceSample>, i: int, j: int, configured: Option<Seq<char>>,
    ttl: u64)
    requires
        spec_fresh(s, j, ttl),
        s[j].source@ != "mock"@,
        spec_candidate(s, i, configured, ttl),
    ensures
        s[i].source@ != "mock"@,
{
    assert(spec_real_provider(s, configured, ttl));
    assert(spec_eligible(s, j, configured, ttl));
}

fn ranks_before(a: &SourceSample, b: &SourceSample) -> (r: bool)
    ensures
        r == spec_ranks_before(*a, *b),
{
    a.priority > b.priority || (a.priority == b.priority && (a.age_secs < b.age_secs
        || (a.age_secs == b.age_secs && str_le(a.source.as_str(), b.source.as_str()))))
}

fn is_mock(s: &str) -> (r: bool)
    ensures
        r == (s@ == "mock"@),
{
    str_eq(s, "mock")
}

/// Whether a real provider is known (see `spec_real_provider`).
fn real_provider(samples: &Vec<SourceSample>, configured: Option<&str>, ttl: u64) -> (r: bool)
    ensures
        r == spec_real_provider(samples@, spec_opt_view(configured), ttl),
{
    if let Some(p) = configured {
        let low = to_lowercase(p);
        if !is_mock(low.as_str()) {
            return true;
        }
    }
    let mut j: usize = 0;
    while j < samples.len()
        invariant
            j <= samples@.len(),
            forall|k: int| 0 <= k < j ==> !(#[trigger] spec_fresh(samples@, k, ttl) && samples@[k].source@ != "mock"@),
        decreases samples@.len() - j,
    {
        if samples[j].age_secs <= ttl && !is_mock(samples[j].source.as_str()) {
            assert(spec_fresh(samples@, j as int, ttl));
            return true;
        }
        j = j + 1;
    }
    false
}

/// The live source among `samples` seen within `ttl` seconds: among the candidates
/// (see `spec_candidate`), one ranked at least as high as every other (see
/// `spec_ranks_before`); none when no source is recent.
pub fn pick_live_source(samples: &Vec<SourceSample>, configured: Option<&str>, ttl: u64) -> (r: Option<usize>)
    ensures
        match r {
            Some(i) => spec_candidate(samples@, i as int, spec_opt_view(configured), ttl) && forall|j: int| #[trigger] spec_candidate(samples@, j, spec_opt_view(configured), ttl) ==> spec_ranks_before(samples@[i as int], samples@[j]),
            None => forall|j: int| !(#[trigger] spec_fresh(samples@, j, ttl)),
        },
{
    let ghost cfg = spec_opt_view(configured);
    let has_real: bool = real_provider(samples, configured, ttl);
    // Is any sample eligible?
    let mut any_eligible = false;
    let mut j: usize = 0;
    while j < samples.len()
        invariant
            j <= samples@.len(),
            has_real == spec_real_provider(samples@, cfg, ttl),
            any_eligible ==> exists|k: int| #[trigger] spec_eligible(samples@, k, cfg, ttl),
            !any_eligible ==> forall|k: int| 0 <= k < j ==> !(#[trigger] spec_eligible(samples@, k, cfg, ttl)),
        decreases samples@.len() - j,
    {
        if samples[j].age_secs <= ttl && !(has_real && is_mock(samples[j].source.as_str())) {
            assert(spec_eligible(samples@, j as int, cfg, ttl));
            any_eligible = true;
        }
        j = j + 1;
    }
    let mut best: Option<usize> = None;
    let mut i: usize = 0;
    while i < samples.len()
        invariant
            i <= samples@.len(),
            has_real == spec_real_provider(samples@, cfg, ttl),
            any_eligible == exists|k: int| #[trigger] spec_eligible(samples@, k, cfg, ttl),
            match best {
                Some(b) => b < i && spec_candidate(samples@, b as int, cfg, ttl)
                    && forall|k: int| 0 <= k < i && #[trigger] spec_candidate(samples@, k, cfg, ttl)
                        ==> spec_ranks_before(samples@[b as int], samples@[k]),
                None => forall|k: int| 0 <= k < i ==> !(#[trigger] spec_candidate(samples@, k, cfg, ttl)),
            },
        decreases samples@.len() - i,
    {
        let fresh = samples[i].age_secs <= ttl;
        let cand = if any_eligible { fresh && !(has_real && is_mock(samples[i].source.as_str())) } else { fresh };
        assert(cand == spec_candidate(samples@, i as int, cfg, ttl));
        if cand {
            match best {
                Some(b) => {
                    proof {
                        lemma_ranks_order(samples@[i as int], samples@[b as int], samples@[i as int]);
                        lemma_ranks_order(samples@[b as int], samples@[i as int], samples@[i as int]);
                    }
                    if ranks_before(&samples[i], &samples[b]) {
                        proof {
                            assert forall|k: int| 0 <= k < i + 1 && #[trigger] spec_candidate(samples@, k, cfg, ttl)
                                implies spec_ranks_before(samples@[i as int], samples@[k]) by {
                                lemma_ranks_order(samples@[i as int], samples@[b as int], samples@[k]);
                            }
                        }
                        best = Some(i);
                    }
                },
                None => {
                    proof {
                        lemma_ranks_order(samples@[i as int], samples@[i as int], samples@[i as int]);
                    }
                    best = Some(i);
                },
            }
        }
        i = i + 1;
    }
    proof {
        if best is None {
            assert forall|j: int| !(#[trigger] spec_fresh(samples@, j, ttl)) by {
                if spec_fresh(samples@, j, ttl) {
                    if any_eligible {
                        let k = choose|k: int| #[trigger] spec_eligible(samples@, k, cfg, ttl);
                        assert(spec_candidate(samples@, k, cfg, ttl));
                    } else {
                        assert(spec_candidate(samples@, j, cfg, ttl));
                    }
                }
            }
        }
    }
    best
}

} // verus!
