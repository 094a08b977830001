//! Deleting vouchers: which ones to delete, the tally of a batch, and the
//! nightly purge schedule.

use crate::clock::{next_local_midnight, next_midnight};
use crate::models::{DeleteResponse, Voucher};
use crate::selector::{is_rolling, is_rolling_voucher};
use vstd::prelude::*;
use vstd::string::*;

verus! {

/// The vouchers a purge removes: the expired ones, or only the expired
/// rolling ones.
pub open spec fn is_purged(v: Voucher, rolling_only: bool) -> bool {
    v.expired && (!rolling_only || is_rolling(v))
}

/// The vouchers of `s` that a purge removes, in their order in `s`.
pub open spec fn purged(s: Seq<Voucher>, rolling_only: bool) -> Seq<Voucher>
    decreases s.len(),
{
    if s.len() == 0 {
        s
    } else if is_purged(s.last(), rolling_only) {
        purged(s.drop_last(), rolling_only).push(s.last())
    } else {
        purged(s.drop_last(), rolling_only)
    }
}

fn purge_ids(vouchers: Vec<Voucher>, rolling_only: bool) -> (r: Vec<String>)
    ensures
        r@.len() == purged(vouchers@, rolling_only).len(),
        forall|i: int| 0 <= i < r@.len() ==> (#[trigger] r@[i])@ == purged(vouchers@, rolling_only)[i].id@,
{
    let ghost orig = vouchers@;
    let mut rest = vouchers;
    let mut out: Vec<String> = Vec::new();
    while rest.len() > 0
        invariant
            rest@.len() <= orig.len(),
            rest@ == orig.subrange(orig.len() - rest@.len(), orig.len() as int),
            out@.len() == purged(orig.subrange(0, orig.len() - rest@.len()), rolling_only).len(),
            forall|i: int|
                0 <= i < out@.len() ==> (#[trigger] out@[i])@ == purged(
                    orig.subrange(0, orig.len() - rest@.len()),
                    rolling_only,
                )[i].id@,
        decreases rest@.len(),
    {
        let ghost k = orig.len() - rest@.len();
        let v = rest.remove(0);
        assert(v == orig[k]);
        assert(orig.subrange(0, k + 1).drop_last() =~= orig.subrange(0, k));
        assert(orig.subrange(0, k + 1).last() == orig[k]);
        if v.expired && (!rolling_only || is_rolling_voucher(&v)) {
            out.push(v.id);
        }
    }
    assert(orig.subrange(0, orig.len() as int) =~= orig);
    out
}

/// The identifiers of the expired vouchers, in list order.
pub fn delete_expired_vouchers(vouchers: Vec<Voucher>) -> (r: Vec<String>)
    ensures
        r@.len() == purged(vouchers@, false).len(),
        forall|i: int| 0 <= i < r@.len() ==> (#[trigger] r@[i])@ == purged(vouchers@, false)[i].id@,
{
    purge_ids(vouchers, false)
}

/// The identifiers of the expired rolling vouchers, in list order.
pub fn delete_expired_rolling_vouchers(vouchers: Vec<Voucher>) -> (r: Vec<String>)
    ensures
        r@.len() == purged(vouchers@, true).len(),
        forall|i: int| 0 <= i < r@.len() ==> (#[trigger] r@[i])@ == purged(vouchers@, true)[i].id@,
{
    purge_ids(vouchers, true)
}

/// A list of identifiers that names nothing: empty, or one empty identifier.
pub open spec fn names_nothing(ids: Seq<String>) -> bool {
    ids.len() == 0 || (ids.len() == 1 && ids[0]@.len() == 0)
}

/// The identifiers a delete request acts on: none where the list names
/// nothing, else all of them.
pub fn delete_targets(ids: Vec<String>) -> (r: Vec<String>)
    ensures
        names_nothing(ids@) ==> r@.len() == 0,
        !names_nothing(ids@) ==> r@ == ids@,
{
    if ids.len() == 0 || (ids.len() == 1 && ids[0].as_str().is_empty()) {
        Vec::new()
    } else {
        ids
    }
}

/// The pieces of `s` between commas, as `str::split(',')` gives them: an
/// empty text is one empty piece, and each comma starts a new piece.
pub open spec fn comma_pieces(s: Seq<char>) -> Seq<Seq<char>>
    decreases s.len(),
{
    if s.len() == 0 {
        seq![Seq::empty()]
    } else {
        let p = comma_pieces(s.drop_last());
        if s.last() == ',' {
            p.push(Seq::empty())
        } else {
            p.update(p.len() - 1, p.last().push(s.last()))
        }
    }
}

proof fn lemma_comma_pieces_nonempty(s: Seq<char>)
    ensures
        comma_pieces(s).len() >= 1,
    decreases s.len(),
{
    if s.len() > 0 {
        lemma_comma_pieces_nonempty(s.drop_last());
    }
}

/// The identifiers of a delete request, written as one comma-separated text.
pub fn parse_delete_ids(ids: &str) -> (r: Vec<String>)
    ensures
        r@.len() == comma_pieces(ids@).len(),
        forall|i: int| 0 <= i < r@.len() ==> (#[trigger] r@[i])@ == comma_pieces(ids@)[i],
{
    let n = ids.unicode_len();
    let mut out: Vec<String> = Vec::new();
    let mut start: usize = 0;
    let mut k: usize = 0;
    while k < n
        invariant
            n == ids@.len(),
            0 <= start <= k <= n,
            comma_pieces(ids@.subrange(0, k as int)).len() == out@.len() + 1,
            forall|i: int|
                0 <= i < out@.len() ==> (#[trigger] out@[i])@ == comma_pieces(ids@.subrange(0, k as int))[i],
            comma_pieces(ids@.subrange(0, k as int)).last() == ids@.subrange(start as int, k as int),
        decreases n - k,
    {
        let ghost before = comma_pieces(ids@.subrange(0, k as int));
        assert(ids@.subrange(0, k + 1).drop_last() =~= ids@.subrange(0, k as int));
        assert(ids@.subrange(0, k + 1).last() == ids@[k as int]);
        proof {
            lemma_comma_pieces_nonempty(ids@.subrange(0, k as int));
        }
        if ids.get_char(k) == ',' {
            let piece = String::from_str(ids.substring_char(start, k));
            out.push(piece);
            start = k + 1;
            assert(ids@.subrange(start as int, k + 1) =~= Seq::<char>::empty());
        } else {
            assert(ids@.subrange(start as int, k + 1) =~= ids@.subrange(start as int, k as int).push(ids@[k as int]));
        }
        k += 1;
    }
    out.push(String::from_str(ids.substring_char(start, n)));
    assert(ids@.subrange(0, n as int) =~= ids@);
    out
}

/// The number of `true` entries.
pub open spec fn count_true(s: Seq<bool>) -> nat
    decreases s.len(),
{
    if s.len() == 0 {
        0
    } else {
        count_true(s.drop_last()) + if s.last() { 1nat } else { 0nat }
    }
}

proof fn lemma_count_true_bound(s: Seq<bool>)
    ensures
        count_true(s) <= s.len(),
    decreases s.len(),
{
    if s.len() > 0 {
        lemma_count_true_bound(s.drop_last());
    }
}

/// The summary of a batch of deletions, one entry per identifier: whether
/// the controller confirmed it. Failures only lower the count.
pub fn delete_vouchers_by_ids(confirmed: &Vec<bool>) -> (r: DeleteResponse)
    requires
        confirmed@.len() <= u32::MAX,
    ensures
        r.vouchers_deleted == count_true(confirmed@),
{
    let mut n: u32 = 0;
    let mut k: usize = 0;
    while k < confirmed.len()
        invariant
            0 <= k <= confirmed@.len(),
            confirmed@.len() <= u32::MAX,
            n == count_true(confirmed@.subrange(0, k as int)),
        decreases confirmed@.len() - k,
    {
        proof {
            assert(confirmed@.subrange(0, k + 1).drop_last() =~= confirmed@.subrange(0, k as int));
            lemma_count_true_bound(confirmed@.subrange(0, k + 1));
        }
        if confirmed[k] {
            n = n + 1;
        }
        k += 1;
    }
    assert(confirmed@.subrange(0, confirmed@.len() as int) =~= confirmed@);
    DeleteResponse { vouchers_deleted: n }
}

/// Whether the controller's reply code confirms a deletion.
pub fn reply_confirms(rc: &str) -> (r: bool)
    ensures
        r == (rc@ == seq!['o', 'k']),
{
    let ok = "ok";
    proof {
        reveal_strlit("ok");
    }
    assert(ok@ =~= seq!['o', 'k']);
    crate::text::same_text(rc, ok)
}

/// How long the purge waits when the next midnight cannot be resolved.
pub const PURGE_RETRY_SECONDS: u64 = 3600;

/// The wait before the next purge: until `midnight` where it lies ahead of
/// `now`, else the retry interval.
pub open spec fn purge_wait(now: i64, midnight: Option<i64>) -> u64 {
    match midnight {
        Some(m) => if m > now { (m - now) as u64 } else { PURGE_RETRY_SECONDS },
        None => PURGE_RETRY_SECONDS,
    }
}

/// The wait in seconds before the next purge, given the next midnight.
pub fn purge_delay(now: i64, midnight: Option<i64>) -> (r: u64)
    ensures
        r == purge_wait(now, midnight),
        (midnight matches Some(m) && m > now) ==> r == midnight.unwrap() - now,
{
    match midnight {
        Some(m) => if m > now { (m as i128 - now as i128) as u64 } else { PURGE_RETRY_SECONDS },
        None => PURGE_RETRY_SECONDS,
    }
}

/// The wait in seconds from `now` (seconds since the epoch) until the next
/// local midnight in `zone`, when the purge runs. Where that midnight occurs
/// twice, the later one is taken.
pub fn run_daily_purge_delay(now: i64, zone: &str) -> (r: u64)
    ensures
        r == purge_wait(now, next_midnight(now, zone@)),
{
    purge_delay(now, next_local_midnight(now, zone))
}

/// Whether the wait ends at a midnight, so that the purge is due then; a
/// retry wait only schedules the next attempt.
pub open spec fn purge_due(now: i64, midnight: Option<i64>) -> bool {
    match midnight {
        Some(m) => m > now,
        None => false,
    }
}

/// The next step of the purge schedule: how long to wait, and whether to
/// purge when the wait is over.
#[derive(Debug, Clone, Copy)]
pub struct PurgePlan {
    pub wait_seconds: u64,
    pub purge: bool,
}

/// The purge schedule at `now` in `zone`: wait until the next local midnight
/// and purge then; where that midnight cannot be resolved, wait the retry
/// interval and purge nothing.
pub fn plan_daily_purge(now: i64, zone: &str) -> (r: PurgePlan)
    ensures
        r.wait_seconds == purge_wait(now, next_midnight(now, zone@)),
        r.purge == purge_due(now, next_midnight(now, zone@)),
{
    let midnight = next_local_midnight(now, zone);
    let purge = match midnight {
        Some(m) => m > now,
        None => false,
    };
    PurgePlan { wait_seconds: purge_delay(now, midnight), purge }
}

} // verus!
