use vstd::prelude::*;

use crate::entities::SeverityLevel;

verus! {

#[verifier::external_type_specification]
#[verifier::external_body]
pub struct ExTimelength(async_timing_util::Timelength);

/// How many stats records one page of history holds.
pub const STATS_PER_PAGE: usize = 500;

/// The longest interval a `Timelength` names: thirty days, in milliseconds.
pub const MAX_INTERVAL_MS: u128 = 2592000000;

/// Relies on `async_timing_util::get_timelength_in_ms`: every timelength is
/// a whole number of seconds between one second and thirty days.
#[verifier::external_body]
fn timelength_ms(t: async_timing_util::Timelength) -> (r: u128)
    ensures
        1000 <= r <= MAX_INTERVAL_MS,
        r % 1000 == 0,
{
    async_timing_util::get_timelength_in_ms(t)
}

pub open spec fn severity_rank(s: SeverityLevel) -> nat {
    match s {
        SeverityLevel::Normal => 0,
        SeverityLevel::Warning => 1,
        SeverityLevel::Critical => 2,
    }
}

/// The severity of a usage of `value`, against the warning and critical
/// thresholds (all in tenths of a percent).
pub open spec fn spec_severity(value: u64, warning: u64, critical: u64) -> SeverityLevel {
    if value >= critical {
        SeverityLevel::Critical
    } else if value >= warning {
        SeverityLevel::Warning
    } else {
        SeverityLevel::Normal
    }
}

/// The severity of a usage of `value`: critical from `critical` up, warning
/// from `warning` up, normal below.
pub fn severity(value: u64, warning: u64, critical: u64) -> (r: SeverityLevel)
    ensures
        r == spec_severity(value, warning, critical),
{
    if value >= critical {
        SeverityLevel::Critical
    } else if value >= warning {
        SeverityLevel::Warning
    } else {
        SeverityLevel::Normal
    }
}

/// With thresholds `warning < critical`, severity never falls as usage
/// rises, and it changes only at the two thresholds.
pub proof fn severity_is_monotone_step(a: u64, b: u64, warning: u64, critical: u64)
    requires
        warning < critical,
        a <= b,
    ensures
        severity_rank(spec_severity(a, warning, critical)) <= severity_rank(
            spec_severity(b, warning, critical),
        ),
        (a < warning && b < warning) || (warning <= a && b < critical) || (critical <= a) ==> spec_severity(a, warning, critical)
            == spec_severity(b, warning, critical),
{
}

/// Usage as tenths of a percent of `total`, rounded to nearest; an empty
/// total counts as no usage.
pub open spec fn spec_percent_tenths(used: u64, total: u64) -> int {
    if total == 0 {
        0
    } else {
        (used as int * 1000 + total as int / 2) / total as int
    }
}

/// Usage as tenths of a percent of `total`, rounded to nearest.
pub fn percent_tenths(used: u64, total: u64) -> (r: u128)
    ensures
        r == spec_percent_tenths(used, total),
{
    if total == 0 {
        return 0;
    }
    let u = used as u128;
    let t = total as u128;
    (u * 1000 + t / 2) / t
}

/// The first timestamp of page `page`: the start of the interval holding
/// `now_ms`, moved back by `page` whole pages.
pub open spec fn page_start(now_ms: i64, interval_ms: i64, page: u32) -> int {
    now_ms - now_ms % interval_ms - interval_ms * STATS_PER_PAGE * page
}

/// `v` holds the timestamps of page `page` at `interval_ms`, newest first.
pub open spec fn is_page(v: Seq<i64>, now_ms: i64, interval_ms: i64, page: u32) -> bool {
    &&& v.len() == STATS_PER_PAGE
    &&& forall|i: int| 0 <= i < STATS_PER_PAGE ==> #[trigger] v[i] == page_start(now_ms, interval_ms, page) - i * interval_ms
}

/// The timestamps of page `page` of history at `interval_ms`, newest first:
/// `STATS_PER_PAGE` of them, one interval apart, from `page_start` down.
pub fn stats_timestamps(now_ms: i64, interval_ms: i64, page: u32) -> (r: Vec<i64>)
    requires
        now_ms >= 0,
        interval_ms > 0,
        page_start(now_ms, interval_ms, page) - interval_ms * STATS_PER_PAGE >= i64::MIN,
    ensures
        r@.len() == STATS_PER_PAGE,
        forall|i: int| 0 <= i < STATS_PER_PAGE ==> #[trigger] r@[i] == page_start(now_ms, interval_ms, page) - i * interval_ms,
{
    let ghost start = page_start(now_ms, interval_ms, page);
    let iv = interval_ms as i128;
    assert(0 <= iv * 500 * (page as i128) <= 9223372036854775807 * 500 * 4294967295) by (nonlinear_arith)
        requires 0 < iv <= 9223372036854775807, 0 <= page <= 4294967295;
    let back: i128 = iv * 500 * (page as i128);
    let first: i128 = (now_ms as i128) - (now_ms as i128) % iv - back;
    assert(first == start);
    assert(first as int <= now_ms as int) by (nonlinear_arith)
        requires first as int == now_ms as int - (now_ms as int) % (iv as int) - back as int, back >= 0, now_ms >= 0, iv > 0;
    let mut out: Vec<i64> = Vec::new();
    let mut i: usize = 0;
    while i < STATS_PER_PAGE
        invariant
            i <= STATS_PER_PAGE,
            iv == interval_ms,
            interval_ms > 0,
            first == start,
            first <= i64::MAX,
            start - interval_ms * STATS_PER_PAGE >= i64::MIN,
            out@.len() == i,
            forall|j: int| 0 <= j < i ==> #[trigger] out@[j] == start - j * interval_ms,
        decreases STATS_PER_PAGE - i,
    {
        assert(0 <= (i as i128) * iv <= 500 * iv && 500 * iv <= 500 * 9223372036854775807) by (nonlinear_arith)
            requires 0 <= i < 500, 0 < iv <= 9223372036854775807;
        let ts: i128 = first - (i as i128) * iv;
        out.push(ts as i64);
        i = i + 1;
    }
    out
}

/// The page that follows page `page` when `count` records came back: the
/// next one exactly when the page was full.
pub fn next_page(page: u32, count: usize) -> (r: Option<u32>)
    requires
        page < u32::MAX,
    ensures
        r == (if count == STATS_PER_PAGE {
            Some((page + 1) as u32)
        } else {
            None
        }),
{
    if count == STATS_PER_PAGE {
        Some(page + 1)
    } else {
        None
    }
}

/// A page of history comes with a following page exactly when it is full.
pub proof fn next_page_iff_full(page: u32, count: usize, r: Option<u32>)
    requires
        page < u32::MAX,
        r == (if count == STATS_PER_PAGE {
            Some((page + 1) as u32)
        } else {
            None::<u32>
        }),
    ensures
        (r == Some((page + 1) as u32)) <==> count == STATS_PER_PAGE,
{
}

/// Whether `ms` is an interval that a `Timelength` can name: a whole
/// number of seconds from one second to thirty days.
pub open spec fn valid_interval(ms: i64) -> bool {
    1000 <= ms <= MAX_INTERVAL_MS && ms % 1000 == 0
}

/// Whether every timestamp of page `page` at `interval_ms` fits in `i64`.
pub open spec fn page_fits(now_ms: i64, interval_ms: i64, page: u32) -> bool {
    page_start(now_ms, interval_ms, page) - interval_ms * STATS_PER_PAGE >= i64::MIN
}

/// `v` is page `page` of history at some interval a `Timelength` names.
pub open spec fn page_at_some_interval(v: Seq<i64>, now_ms: i64, page: u32) -> bool {
    exists|ms: i64| valid_interval(ms) && #[trigger] is_page(v, now_ms, ms, page)
}

/// Whether page `page` fits in `i64` at every interval a `Timelength`
/// names.
pub open spec fn page_fits_any_interval(now_ms: i64, page: u32) -> bool {
    now_ms - MAX_INTERVAL_MS * (STATS_PER_PAGE * (page + 1) + 1) >= i64::MIN
}

/// The timestamps of page `page` of history at `interval_ms`, newest
/// first, as `stats_timestamps` gives them; `None` exactly where they would
/// leave the range of `i64`.
pub fn stats_page_timestamps(now_ms: i64, interval_ms: i64, page: u32) -> (r: Option<Vec<i64>>)
    requires
        now_ms >= 0,
        interval_ms > 0,
    ensures
        r is Some <==> page_fits(now_ms, interval_ms, page),
        r matches Some(v) ==> is_page(v@, now_ms, interval_ms, page),
{
    let iv = interval_ms as i128;
    assert(0 <= iv * 500 * ((page as i128) + 1) <= 9223372036854775807 * 500 * 4294967296) by (nonlinear_arith)
        requires 0 < iv <= 9223372036854775807, 0 <= page <= 4294967295;
    let span: i128 = iv * 500 * ((page as i128) + 1);
    let floor: i128 = (now_ms as i128) - (now_ms as i128) % iv;
    assert(page_start(now_ms, interval_ms, page) - interval_ms * STATS_PER_PAGE == floor - span) by (nonlinear_arith)
        requires span as int == (iv as int) * 500 * ((page as int) + 1), floor as int == now_ms as int - (now_ms as int) % (interval_ms as int), iv as int == interval_ms as int;
    if floor - span < i64::MIN as i128 {
        return None;
    }
    let v = stats_timestamps(now_ms, interval_ms, page);
    Some(v)
}

/// The timestamps of page `page` of history at `interval`: `None` only
/// where some timestamp would leave the range of `i64`, which cannot
/// happen while `page_fits_any_interval` holds.
pub fn historical_stats_timestamps(now_ms: i64, interval: async_timing_util::Timelength, page: u32) -> (r: Option<
    Vec<i64>,
>)
    requires
        now_ms >= 0,
    ensures
        page_fits_any_interval(now_ms, page) ==> r is Some,
        r matches Some(v) ==> page_at_some_interval(v@, now_ms, page),
{
    let ms = timelength_ms(interval);
    let interval_ms = ms as i64;
    assert(interval_ms as int == ms as int);
    assert(valid_interval(interval_ms));
    proof {
        if page_fits_any_interval(now_ms, page) {
            let k = STATS_PER_PAGE * (page + 1) + 1;
            assert(interval_ms * k <= MAX_INTERVAL_MS * k) by (nonlinear_arith)
                requires interval_ms <= MAX_INTERVAL_MS, k >= 0;
            assert(now_ms % interval_ms < interval_ms);
            assert(page_start(now_ms, interval_ms, page) - interval_ms * STATS_PER_PAGE >= now_ms - interval_ms * k) by (nonlinear_arith)
                requires k == STATS_PER_PAGE * (page + 1) + 1, now_ms % interval_ms < interval_ms,
                    page_start(now_ms, interval_ms, page) == now_ms - now_ms % interval_ms - interval_ms * STATS_PER_PAGE * page;
        }
    }
    let r = stats_page_timestamps(now_ms, interval_ms, page);
    match r {
        Some(v) => {
            assert(is_page(v@, now_ms, interval_ms, page));
            assert(page_at_some_interval(v@, now_ms, page));
            Some(v)
        },
        None => None,
    }
}

} // verus!
