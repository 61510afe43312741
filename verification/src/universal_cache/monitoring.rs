//! Cache statistics as the daemon status reports them: per-method summaries and the
//! totals over methods. Rates, which are ratios, are left to the caller.
use vstd::prelude::*;
use super::{all_methods, method_name, LspMethod, MethodStats};
use crate::text::{chars_of, string_of};

verus! {

/// A method's statistics as the daemon status reports them
#[derive(Debug, Clone)]
pub struct MethodStatsSummary {
    pub method: String,
    pub enabled: bool,
    pub entries: u64,
    pub size_bytes: u64,
    pub hits: u64,
    pub misses: u64,
    pub avg_cache_response_time_us: u64,
    pub avg_lsp_response_time_us: u64,
    pub ttl_seconds: Option<u64>,
}

/// The methods seen among the first `n` slots, in slot order, each with its name.
pub open spec fn seen_methods(v: Seq<Option<MethodStats>>, n: int) -> Seq<(Seq<char>, MethodStats)>
    decreases n,
{
    if n <= 0 {
        seq![]
    } else {
        let prev = seen_methods(v, n - 1);
        match v[n - 1] {
            Some(s) => prev.push((method_name(all_methods()[n - 1]), s)),
            None => prev,
        }
    }
}

/// The summary reported for a method's statistics: enabled, with the method's counts,
/// response times of 100 µs from the cache and 5000 µs from the server, and a
/// time-to-live of an hour.
pub open spec fn summary_is(r: MethodStatsSummary, name: Seq<char>, s: MethodStats) -> bool {
    &&& r.method@ == name
    &&& r.enabled
    &&& r.entries == s.entries
    &&& r.size_bytes == s.size_bytes
    &&& r.hits == s.hits
    &&& r.misses == s.misses
    &&& r.avg_cache_response_time_us == 100
    &&& r.avg_lsp_response_time_us == 5000
    &&& r.ttl_seconds == Some(3600u64)
}

/// Convert method stats (at each method's index, `None` for a method not seen) to the
/// status format, keyed by the method's protocol name
pub fn convert_method_stats(method_stats: &Vec<Option<MethodStats>>) -> (r: Vec<(String, MethodStatsSummary)>)
    requires
        method_stats@.len() == 16,
    ensures
        r@.len() == seen_methods(method_stats@, 16).len(),
        forall|i: int|
            0 <= i < r@.len() ==> (#[trigger] r@[i]).0@ == seen_methods(method_stats@, 16)[i].0
                && summary_is(
                r@[i].1,
                seen_methods(method_stats@, 16)[i].0,
                seen_methods(method_stats@, 16)[i].1,
            ),
{
    let ghost v = method_stats@;
    let mut out: Vec<(String, MethodStatsSummary)> = Vec::new();
    let mut i: usize = 0;
    while i < 16
        invariant
            i <= 16,
            v == method_stats@,
            v.len() == 16,
            out@.len() == seen_methods(v, i as int).len(),
            forall|j: int|
                0 <= j < out@.len() ==> (#[trigger] out@[j]).0@ == seen_methods(v, i as int)[j].0
                    && summary_is(
                    out@[j].1,
                    seen_methods(v, i as int)[j].0,
                    seen_methods(v, i as int)[j].1,
                ),
        decreases 16 - i,
    {
        let ghost before = out@;
        match method_stats[i] {
            Some(s) => {
                let m = LspMethod::from_index(i);
                let name = string_of(&chars_of(m.as_str()));
                let summary = MethodStatsSummary {
                    method: string_of(&chars_of(m.as_str())),
                    enabled: true,
                    entries: s.entries,
                    size_bytes: s.size_bytes,
                    hits: s.hits,
                    misses: s.misses,
                    avg_cache_response_time_us: 100,
                    avg_lsp_response_time_us: 5000,
                    ttl_seconds: Some(3600),
                };
                out.push((name, summary));
                assert forall|j: int| 0 <= j < out@.len() implies (#[trigger] out@[j]).0@ == seen_methods(
                    v,
                    i + 1,
                )[j].0 && summary_is(
                    out@[j].1,
                    seen_methods(v, i + 1)[j].0,
                    seen_methods(v, i + 1)[j].1,
                ) by {
                    if j < before.len() {
                        assert(out@[j] == before[j]);
                    }
                }
            },
            None => {
                assert(seen_methods(v, i + 1) == seen_methods(v, i as int));
            },
        }
        i += 1;
    }
    out
}

/// The hits of the first `n` method slots.
pub open spec fn hits_sum(v: Seq<Option<MethodStats>>, n: int) -> int
    decreases n,
{
    if n <= 0 {
        0
    } else {
        hits_sum(v, n - 1) + match v[n - 1] {
            Some(s) => s.hits as int,
            None => 0,
        }
    }
}

/// The misses of the first `n` method slots.
pub open spec fn misses_sum(v: Seq<Option<MethodStats>>, n: int) -> int
    decreases n,
{
    if n <= 0 {
        0
    } else {
        misses_sum(v, n - 1) + match v[n - 1] {
            Some(s) => s.misses as int,
            None => 0,
        }
    }
}

proof fn lemma_sums_grow(v: Seq<Option<MethodStats>>, i: int, n: int)
    requires
        0 <= i <= n,
    ensures
        hits_sum(v, i) <= hits_sum(v, n),
        misses_sum(v, i) <= misses_sum(v, n),
    decreases n - i,
{
    if i < n {
        lemma_sums_grow(v, i, n - 1);
    }
}

/// The hits and the misses over all methods, as the status report totals them
pub fn method_totals(method_stats: &Vec<Option<MethodStats>>) -> (r: (u64, u64))
    requires
        method_stats@.len() == 16,
        hits_sum(method_stats@, 16) <= u64::MAX,
        misses_sum(method_stats@, 16) <= u64::MAX,
    ensures
        r.0 == hits_sum(method_stats@, 16),
        r.1 == misses_sum(method_stats@, 16),
{
    let mut hits: u64 = 0;
    let mut misses: u64 = 0;
    let mut i: usize = 0;
    while i < 16
        invariant
            i <= 16,
            method_stats@.len() == 16,
            hits_sum(method_stats@, 16) <= u64::MAX,
            misses_sum(method_stats@, 16) <= u64::MAX,
            hits == hits_sum(method_stats@, i as int),
            misses == misses_sum(method_stats@, i as int),
        decreases 16 - i,
    {
        proof {
            lemma_sums_grow(method_stats@, i + 1, 16);
        }
        match method_stats[i] {
            Some(s) => {
                hits = hits + s.hits;
                misses = misses + s.misses;
            },
            None => {},
        }
        i += 1;
    }
    (hits, misses)
}

} // verus!
