//! Selection over an already fetched, normalised voucher list: the unused
//! rolling set, its oldest-first queue, the newest candidate, lookups, and
//! the per-address rotation guard.

use crate::clock::{display_seconds, parse_display_time};
use crate::models::{ApiError, Voucher};
use crate::text::{ends_with, has_prefix, has_suffix, is_digit, same_text, starts_with};
use vstd::prelude::*;
use vstd::string::*;

verus! {

/// The reserved name prefix of rolling vouchers.
pub open spec fn rolling_prefix() -> Seq<char> {
    seq!['[', 'R', 'O', 'L', 'L', 'I', 'N', 'G', ']']
}

pub fn rolling_prefix_text() -> (r: &'static str)
    ensures
        r@ == rolling_prefix(),
{
    let r = "[ROLLING]";
    proof {
        reveal_strlit("[ROLLING]");
    }
    assert(r@ =~= rolling_prefix());
    r
}

pub open spec fn is_rolling(v: Voucher) -> bool {
    has_prefix(v.name@, rolling_prefix())
}

/// A rolling voucher that nobody has redeemed and that has not expired.
pub open spec fn is_unused_rolling(v: Voucher) -> bool {
    is_rolling(v) && v.authorized_guest_count == 0 && !v.expired
}

/// The ordering key of a voucher: its creation time in seconds, or zero (the
/// epoch) where the creation text cannot be read.
pub open spec fn created_key(v: Voucher) -> i64 {
    match display_seconds(v.created_at@) {
        Some(t) => t,
        None => 0,
    }
}

/// The unused rolling vouchers of `s`, in their order in `s`.
pub open spec fn unused_rolling(s: Seq<Voucher>) -> Seq<Voucher>
    decreases s.len(),
{
    if s.len() == 0 {
        s
    } else if is_unused_rolling(s.last()) {
        unused_rolling(s.drop_last()).push(s.last())
    } else {
        unused_rolling(s.drop_last())
    }
}

/// `v` put into `q` after every element that is not newer than it.
pub open spec fn insert_by_age(q: Seq<Voucher>, v: Voucher) -> Seq<Voucher>
    decreases q.len(),
{
    if q.len() == 0 {
        seq![v]
    } else if created_key(v) < created_key(q[0]) {
        seq![v] + q
    } else {
        seq![q[0]] + insert_by_age(q.drop_first(), v)
    }
}

/// `s` sorted by creation time, oldest first; equal times keep their order.
pub open spec fn oldest_first(s: Seq<Voucher>) -> Seq<Voucher>
    decreases s.len(),
{
    if s.len() == 0 {
        s
    } else {
        insert_by_age(oldest_first(s.drop_last()), s.last())
    }
}

pub open spec fn sorted_by_age(q: Seq<Voucher>) -> bool {
    forall|i: int, j: int| 0 <= i < j < q.len() ==> created_key(q[i]) <= created_key(q[j])
}

/// The queue of rolling candidates of a list: its unused rolling vouchers,
/// oldest first.
pub open spec fn rolling_queue(s: Seq<Voucher>) -> Seq<Voucher> {
    oldest_first(unused_rolling(s))
}

proof fn lemma_insert_by_age(q: Seq<Voucher>, v: Voucher, p: int)
    requires
        sorted_by_age(q),
        0 <= p <= q.len(),
        forall|i: int| 0 <= i < p ==> created_key(#[trigger] q[i]) <= created_key(v),
        p < q.len() ==> created_key(v) < created_key(q[p]),
    ensures
        insert_by_age(q, v) == q.insert(p, v),
    decreases q.len(),
{
    if q.len() == 0 {
        assert(q.insert(p, v) =~= seq![v]);
    } else if created_key(v) < created_key(q[0]) {
        assert(p == 0);
        assert(q.insert(p, v) =~= seq![v] + q);
    } else {
        assert(p > 0);
        let t = q.drop_first();
        assert forall|i: int| 0 <= i < p - 1 implies created_key(#[trigger] t[i]) <= created_key(v) by {
            assert(t[i] == q[i + 1]);
        }
        lemma_insert_by_age(t, v, p - 1);
        assert(q.insert(p, v) =~= seq![q[0]] + t.insert(p - 1, v));
    }
}

pub fn created_key_of(v: &Voucher) -> (r: i64)
    ensures
        r == created_key(*v),
{
    match parse_display_time(v.created_at.as_str()) {
        Some(t) => t,
        None => 0,
    }
}

pub fn is_rolling_voucher(v: &Voucher) -> (r: bool)
    ensures
        r == is_rolling(*v),
{
    starts_with(v.name.as_str(), rolling_prefix_text())
}

pub fn is_unused_rolling_voucher(v: &Voucher) -> (r: bool)
    ensures
        r == is_unused_rolling(*v),
{
    is_rolling_voucher(v) && v.authorized_guest_count == 0 && !v.expired
}

/// The unused rolling vouchers of the list, oldest first; vouchers created
/// at the same time keep their order in the list.
pub fn get_all_unused_rolling_vouchers(vouchers: Vec<Voucher>) -> (r: Vec<Voucher>)
    ensures
        r@ == rolling_queue(vouchers@),
        sorted_by_age(r@),
        forall|i: int| 0 <= i < r@.len() ==> is_unused_rolling(#[trigger] r@[i]),
{
    let ghost orig = vouchers@;
    let mut rest = vouchers;
    let mut out: Vec<Voucher> = Vec::new();
    let mut keys: Vec<i64> = Vec::new();
    while rest.len() > 0
        invariant
            rest@.len() <= orig.len(),
            rest@ == orig.subrange(orig.len() - rest@.len(), orig.len() as int),
            out@ == oldest_first(unused_rolling(orig.subrange(0, orig.len() - rest@.len()))),
            sorted_by_age(out@),
            keys@.len() == out@.len(),
            forall|i: int| 0 <= i < out@.len() ==> keys@[i] == created_key(#[trigger] out@[i]),
            forall|i: int| 0 <= i < out@.len() ==> is_unused_rolling(#[trigger] out@[i]),
        decreases rest@.len(),
    {
        let ghost k = orig.len() - rest@.len();
        let ghost before = out@;
        let v = rest.remove(0);
        assert(v == orig[k]);
        assert(orig.subrange(0, k + 1).drop_last() =~= orig.subrange(0, k));
        assert(orig.subrange(0, k + 1).last() == orig[k]);
        if is_unused_rolling_voucher(&v) {
            let key = created_key_of(&v);
            let mut p: usize = 0;
            while p < out.len() && keys[p] <= key
                invariant
                    0 <= p <= out@.len(),
                    keys@.len() == out@.len(),
                    forall|i: int| 0 <= i < out@.len() ==> keys@[i] == created_key(#[trigger] out@[i]),
                    forall|i: int| 0 <= i < p ==> created_key(#[trigger] out@[i]) <= key,
                decreases out@.len() - p,
            {
                p += 1;
            }
            proof {
                lemma_insert_by_age(before, v, p as int);
                let u = unused_rolling(orig.subrange(0, k));
                assert(unused_rolling(orig.subrange(0, k + 1)) == u.push(v));
                assert(u.push(v).drop_last() =~= u);
            }
            out.insert(p, v);
            keys.insert(p, key);
        }
    }
    assert(orig.subrange(0, orig.len() as int) =~= orig);
    out
}

/// The candidate at `index` of the oldest-first queue, if the queue is that
/// long.
pub fn get_rolling_voucher_by_index(vouchers: Vec<Voucher>, index: usize) -> (r: Option<Voucher>)
    ensures
        r == (if index < rolling_queue(vouchers@).len() {
            Some(rolling_queue(vouchers@)[index as int])
        } else {
            None
        }),
        r matches Some(v) ==> is_unused_rolling(v),
{
    let mut queue = get_all_unused_rolling_vouchers(vouchers);
    if index < queue.len() {
        Some(queue.remove(index))
    } else {
        None
    }
}

/// Candidates of a newest pick: every voucher, or the unused rolling ones.
pub open spec fn is_candidate(v: Voucher, rolling_only: bool) -> bool {
    !rolling_only || is_unused_rolling(v)
}

/// `s[i]` is the newest candidate of `s`; of equally new ones, the last.
pub open spec fn newest_at(s: Seq<Voucher>, i: int, rolling_only: bool) -> bool {
    &&& 0 <= i < s.len()
    &&& is_candidate(s[i], rolling_only)
    &&& forall|j: int|
        0 <= j < s.len() && is_candidate(#[trigger] s[j], rolling_only) ==> created_key(s[j])
            <= created_key(s[i])
    &&& forall|j: int|
        i < j < s.len() && is_candidate(#[trigger] s[j], rolling_only) ==> created_key(s[j])
            < created_key(s[i])
}

fn newest_index(s: &Vec<Voucher>, rolling_only: bool) -> (r: Option<usize>)
    ensures
        r is None <==> forall|j: int| 0 <= j < s@.len() ==> !is_candidate(#[trigger] s@[j], rolling_only),
        r matches Some(i) ==> newest_at(s@, i as int, rolling_only),
{
    let mut best: Option<usize> = None;
    let mut best_key: i64 = 0;
    let mut k: usize = 0;
    while k < s.len()
        invariant
            0 <= k <= s@.len(),
            best is None <==> forall|j: int| 0 <= j < k ==> !is_candidate(#[trigger] s@[j], rolling_only),
            best matches Some(i) ==> {
                &&& i < k
                &&& best_key == created_key(s@[i as int])
                &&& is_candidate(s@[i as int], rolling_only)
                &&& forall|j: int|
                    0 <= j < k && is_candidate(#[trigger] s@[j], rolling_only) ==> created_key(s@[j])
                        <= best_key
                &&& forall|j: int|
                    i < j < k && is_candidate(#[trigger] s@[j], rolling_only) ==> created_key(s@[j])
                        < best_key
            },
        decreases s@.len() - k,
    {
        let candidate = !rolling_only || is_unused_rolling_voucher(&s[k]);
        if candidate {
            let key = created_key_of(&s[k]);
            if best.is_none() || key >= best_key {
                best = Some(k);
                best_key = key;
            }
        }
        k += 1;
    }
    best
}

/// The newest unused rolling voucher of the list (of equally new ones, the
/// last in the list), or `None` where there is none.
pub fn get_rolling_voucher(vouchers: Vec<Voucher>) -> (r: Option<Voucher>)
    ensures
        r is None <==> forall|j: int| 0 <= j < vouchers@.len() ==> !is_unused_rolling(#[trigger] vouchers@[j]),
        r is Some ==> exists|i: int| newest_at(vouchers@, i, true) && r == Some(#[trigger] vouchers@[i]),
        r matches Some(v) ==> is_unused_rolling(v),
{
    let mut vouchers = vouchers;
    match newest_index(&vouchers, true) {
        Some(i) => {
            let ghost s = vouchers@;
            let v = vouchers.remove(i);
            assert(newest_at(s, i as int, true) && v == s[i as int]);
            Some(v)
        },
        None => None,
    }
}

/// The newest voucher of the list (of equally new ones, the last in the
/// list); `NotFound` where the list is empty.
pub fn get_newest_voucher(vouchers: Vec<Voucher>) -> (r: Result<Voucher, ApiError>)
    ensures
        r is Err <==> vouchers@.len() == 0,
        r is Err ==> r == Err::<Voucher, ApiError>(ApiError::NotFound),
        r is Ok ==> exists|i: int| newest_at(vouchers@, i, false) && r == Ok::<Voucher, ApiError>(#[trigger] vouchers@[i]),
{
    let mut vouchers = vouchers;
    match newest_index(&vouchers, false) {
        Some(i) => {
            let ghost s = vouchers@;
            let v = vouchers.remove(i);
            assert(newest_at(s, i as int, false) && v == s[i as int]);
            Ok(v)
        },
        None => {
            assert(vouchers@.len() > 0 ==> !is_candidate(vouchers@[0], false));
            Err(ApiError::NotFound)
        },
    }
}

/// The first voucher of the list with identifier `id`; `NotFound` where
/// there is none.
pub fn get_voucher_details(vouchers: Vec<Voucher>, id: &str) -> (r: Result<Voucher, ApiError>)
    ensures
        r is Err <==> forall|j: int| 0 <= j < vouchers@.len() ==> (#[trigger] vouchers@[j]).id@ != id@,
        r is Err ==> r == Err::<Voucher, ApiError>(ApiError::NotFound),
        r is Ok ==> exists|i: int|
            0 <= i < vouchers@.len() && (#[trigger] vouchers@[i]).id@ == id@ && r == Ok::<Voucher, ApiError>(vouchers@[i])
                && forall|j: int| 0 <= j < i ==> (#[trigger] vouchers@[j]).id@ != id@,
{
    let mut list = vouchers;
    let mut k: usize = 0;
    while k < list.len()
        invariant
            0 <= k <= list@.len(),
            list@ == vouchers@,
            forall|j: int| 0 <= j < k ==> (#[trigger] list@[j]).id@ != id@,
        decreases list@.len() - k,
    {
        if same_text(list[k].id.as_str(), id) {
            let ghost s = list@;
            let v = list.remove(k);
            assert(v == s[k as int]);
            return Ok(v);
        }
        k += 1;
    }
    Err(ApiError::NotFound)
}

/// A character that can continue an address: a digit, an ASCII letter, `.`
/// or `:`.
pub open spec fn address_char(c: char) -> bool {
    is_digit(c) || ('a' <= c && c <= 'z') || ('A' <= c && c <= 'Z') || c == '.' || c == ':'
}

/// `name` ends with exactly `ip`: the text before it, if any, does not end
/// with a character that could be part of a longer address.
pub open spec fn ends_with_address(name: Seq<char>, ip: Seq<char>) -> bool {
    has_suffix(name, ip) && (name.len() == ip.len() || !address_char(
        name[name.len() - ip.len() - 1],
    ))
}

/// A voucher already issued to `ip`: a rolling voucher that has not expired
/// and whose name ends with exactly `ip`.
pub open spec fn issued_to(v: Voucher, ip: Seq<char>) -> bool {
    !v.expired && is_rolling(v) && ends_with_address(v.name@, ip)
}

fn is_address_char(c: char) -> (r: bool)
    ensures
        r == address_char(c),
{
    ('0' <= c && c <= '9') || ('a' <= c && c <= 'z') || ('A' <= c && c <= 'Z') || c == '.' || c
        == ':'
}

fn name_ends_with_address(name: &str, ip: &str) -> (r: bool)
    ensures
        r == ends_with_address(name@, ip@),
{
    if !ends_with(name, ip) {
        return false;
    }
    let n = name.unicode_len();
    let m = ip.unicode_len();
    if n == m {
        true
    } else {
        !is_address_char(name.get_char(n - m - 1))
    }
}

/// Whether the client address `ip` has already been issued a rolling voucher
/// that is still valid.
pub fn check_rolling_voucher_ip(vouchers: &Vec<Voucher>, ip: &str) -> (r: bool)
    ensures
        r == exists|i: int| 0 <= i < vouchers@.len() && issued_to(#[trigger] vouchers@[i], ip@),
{
    let mut k: usize = 0;
    while k < vouchers.len()
        invariant
            0 <= k <= vouchers@.len(),
            forall|j: int| 0 <= j < k ==> !issued_to(#[trigger] vouchers@[j], ip@),
        decreases vouchers@.len() - k,
    {
        let v = &vouchers[k];
        if !v.expired && is_rolling_voucher(v) && name_ends_with_address(v.name.as_str(), ip) {
            return true;
        }
        k += 1;
    }
    false
}

} // verus!
