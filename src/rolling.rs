//! Issuing rolling vouchers: their names, the create requests for them, the
//! per-address guard, and replenishment of the pool up to its minimum size.

use crate::models::{ApiError, CreateVoucherRequest, CreateVoucherResponse, Voucher};
use crate::selector::{check_rolling_voucher_ip, issued_to, rolling_prefix, rolling_prefix_text};
use crate::text::{all_digits, decimal, decimal_text, digit_char, is_digit};
use crate::voucher_config::{kbps_of, VoucherConfig};
use vstd::prelude::*;
use vstd::string::*;

verus! {

/// The name of the rolling voucher issued to `ip`: the reserved prefix, then
/// the creation stamp, then `-` and the address, which is the rotation key.
pub open spec fn rolling_name(stamp: Seq<char>, ip: Seq<char>) -> Seq<char> {
    rolling_prefix() + seq![' '] + stamp + seq!['-'] + ip
}

/// The name of the `i`-th rolling voucher of one replenishment.
pub open spec fn auto_rolling_name(stamp: Seq<char>, i: nat) -> Seq<char> {
    rolling_prefix() + seq![' '] + stamp + seq!['-', 'a', 'u', 't', 'o', '-'] + decimal(i)
}

/// `q` asks for one rolling voucher under the policy of `config`.
pub open spec fn is_rolling_request(config: VoucherConfig, q: CreateVoucherRequest) -> bool {
    &&& q.count == 1
    &&& q.time_limit_minutes == config.rolling_voucher.duration_minutes
    &&& q.authorized_guest_limit is None
    &&& q.data_usage_limit_mbytes == config.rolling_voucher.data_limit_mb
    &&& q.tx_rate_limit_kbps == kbps_of(config.rolling_voucher.download_mbps)
    &&& q.rx_rate_limit_kbps == kbps_of(config.rolling_voucher.upload_mbps)
}

fn prefixed_name(stamp: &str) -> (r: String)
    ensures
        r@ == rolling_prefix() + seq![' '] + stamp@,
{
    let mut name = String::from_str(rolling_prefix_text());
    name.append(" ");
    name.append(stamp);
    proof {
        reveal_strlit(" ");
    }
    assert(name@ =~= rolling_prefix() + seq![' '] + stamp@);
    name
}

/// The name of the rolling voucher for client address `ip`, created at the
/// local time written `stamp`.
pub fn rolling_voucher_name(stamp: &str, ip: &str) -> (r: String)
    ensures
        r@ == rolling_name(stamp@, ip@),
{
    let mut name = prefixed_name(stamp);
    name.append("-");
    name.append(ip);
    proof {
        reveal_strlit("-");
    }
    assert(name@ =~= rolling_name(stamp@, ip@));
    name
}

/// The name of the `i`-th rolling voucher of a replenishment at `stamp`.
pub fn auto_rolling_voucher_name(stamp: &str, i: u64) -> (r: String)
    ensures
        r@ == auto_rolling_name(stamp@, i as nat),
{
    let mut name = prefixed_name(stamp);
    name.append("-auto-");
    let digits = decimal_text(i);
    name.append(digits.as_str());
    proof {
        reveal_strlit("-auto-");
    }
    assert(name@ =~= auto_rolling_name(stamp@, i as nat));
    name
}

fn rolling_request(config: &VoucherConfig, name: String) -> (r: CreateVoucherRequest)
    ensures
        is_rolling_request(*config, r),
        r.name == name,
{
    CreateVoucherRequest {
        count: 1,
        name,
        time_limit_minutes: config.duration_minutes(),
        authorized_guest_limit: None,
        data_usage_limit_mbytes: config.data_limit_mb(),
        tx_rate_limit_kbps: config.download_kbps(),
        rx_rate_limit_kbps: config.upload_kbps(),
    }
}

/// The request that creates the rolling voucher for client address `ip`.
pub fn create_rolling_voucher(config: &VoucherConfig, stamp: &str, ip: &str) -> (r: CreateVoucherRequest)
    ensures
        is_rolling_request(*config, r),
        r.name@ == rolling_name(stamp@, ip@),
{
    rolling_request(config, rolling_voucher_name(stamp, ip))
}

/// Refuses a rolling voucher to an address that already holds a valid one.
pub fn guard_rolling_issue(vouchers: &Vec<Voucher>, ip: &str) -> (r: Result<(), ApiError>)
    ensures
        r is Err <==> exists|i: int| 0 <= i < vouchers@.len() && issued_to(#[trigger] vouchers@[i], ip@),
        r is Err ==> r == Err::<(), ApiError>(ApiError::PolicyViolation),
{
    if check_rolling_voucher_ip(vouchers, ip) {
        Err(ApiError::PolicyViolation)
    } else {
        Ok(())
    }
}

/// The voucher that a create command for one voucher produced: the first
/// one found; `Protocol` where the controller reports none.
pub fn first_created(response: CreateVoucherResponse) -> (r: Result<Voucher, ApiError>)
    ensures
        response.vouchers@.len() == 0 ==> r == Err::<Voucher, ApiError>(ApiError::Protocol),
        response.vouchers@.len() > 0 ==> r == Ok::<Voucher, ApiError>(response.vouchers@[0]),
{
    let mut vouchers = response.vouchers;
    if vouchers.len() == 0 {
        Err(ApiError::Protocol)
    } else {
        Ok(vouchers.remove(0))
    }
}

/// How many rolling vouchers a pool of `unused` lacks to reach `min`.
pub open spec fn deficit(min: u32, unused: usize) -> int {
    if unused >= min {
        0
    } else {
        min - unused
    }
}

/// A replenishment of the rolling pool in progress: vouchers are created one
/// at a time, and a failed creation does not stop the others.
#[derive(Debug)]
pub struct Replenishment {
    /// How many vouchers it creates in all.
    pub planned: u32,
    /// How many creations have been tried so far.
    pub attempted: u32,
    /// The first voucher that was created, if any.
    pub first: Option<Voucher>,
}

impl Replenishment {
    /// No more creations are tried than were planned.
    pub open spec fn within_plan(&self) -> bool {
        self.attempted <= self.planned
    }

    /// Plans the creations that bring `unused_count` unused rolling vouchers
    /// up to `min_pool_size`.
    pub fn start(min_pool_size: u32, unused_count: usize) -> (r: Replenishment)
        ensures
            r.planned == deficit(min_pool_size, unused_count),
            r.attempted == 0,
            r.first is None,
            r.within_plan(),
    {
        let planned: u32 = if unused_count >= min_pool_size as usize {
            0
        } else {
            min_pool_size - unused_count as u32
        };
        Replenishment { planned, attempted: 0, first: None }
    }

    /// The next voucher to create, named with the local time `stamp` and the
    /// number of the attempt; `None` once all planned ones were tried.
    pub fn next_request(&self, config: &VoucherConfig, stamp: &str) -> (r: Option<CreateVoucherRequest>)
        ensures
            r is Some <==> self.attempted < self.planned,
            r matches Some(q) ==> is_rolling_request(*config, q) && q.name@ == auto_rolling_name(
                stamp@,
                self.attempted as nat,
            ),
    {
        if self.attempted < self.planned {
            let name = auto_rolling_voucher_name(stamp, self.attempted as u64);
            Some(rolling_request(config, name))
        } else {
            None
        }
    }

    /// Takes the result of the creation that was asked for: the created
    /// voucher, or `None` where it failed.
    pub fn record(&mut self, created: Option<Voucher>)
        requires
            old(self).attempted < old(self).planned,
        ensures
            final(self).planned == old(self).planned,
            final(self).attempted == old(self).attempted + 1,
            final(self).within_plan(),
            final(self).first == (if old(self).first is Some {
                old(self).first
            } else {
                created
            }),
    {
        self.attempted = self.attempted + 1;
        if self.first.is_none() {
            self.first = created;
        }
    }

    /// Whether to pause before the next creation: between two creations,
    /// never before the first or after the last.
    pub fn pause_before_next(&self) -> (r: bool)
        ensures
            r == (0 < self.attempted && self.attempted < self.planned),
    {
        0 < self.attempted && self.attempted < self.planned
    }

    /// The representative result: the first voucher created, if any.
    pub fn finish(self) -> (r: Option<Voucher>)
        ensures
            r == self.first,
    {
        self.first
    }
}

proof fn lemma_decimal_shape(n: nat)
    ensures
        decimal(n).len() >= 1,
        all_digits(decimal(n)),
        (n < 10) == (decimal(n).len() == 1),
        decimal(n).last() == digit_char(n % 10),
    decreases n,
{
    if n >= 10 {
        lemma_decimal_shape(n / 10);
        let d = decimal(n / 10);
        assert forall|i: int| 0 <= i < decimal(n).len() implies is_digit(#[trigger] decimal(n)[i]) by {
            if i < d.len() {
                assert(decimal(n)[i] == d[i]);
            }
        }
    }
}

proof fn lemma_decimal_injective(a: nat, b: nat)
    requires
        decimal(a) == decimal(b),
    ensures
        a == b,
    decreases a,
{
    lemma_decimal_shape(a);
    lemma_decimal_shape(b);
    if a >= 10 && b >= 10 {
        assert(decimal(a).drop_last() =~= decimal(a / 10));
        assert(decimal(b).drop_last() =~= decimal(b / 10));
        lemma_decimal_injective(a / 10, b / 10);
    }
}

/// Two texts that each end with `-` and a run of digits, and are equal, end
/// with the same run of digits.
proof fn lemma_digit_tail(x: Seq<char>, a: Seq<char>, y: Seq<char>, b: Seq<char>)
    requires
        all_digits(a),
        all_digits(b),
        x + seq!['-'] + a == y + seq!['-'] + b,
    ensures
        a == b,
{
    let s = x + seq!['-'] + a;
    let t = y + seq!['-'] + b;
    let n = s.len();
    if a.len() < b.len() {
        let k = n - a.len() - 1;
        assert(s[k] == '-');
        assert(t[k] == b[k - (n - b.len())]);
        assert(false);
    } else if b.len() < a.len() {
        let k = n - b.len() - 1;
        assert(t[k] == '-');
        assert(s[k] == a[k - (n - a.len())]);
        assert(false);
    } else {
        assert(a =~= s.subrange(n - a.len(), n as int));
        assert(b =~= t.subrange(n - b.len(), n as int));
    }
}

/// The vouchers of a replenishment get pairwise different names: names for
/// different attempts differ, whatever the stamps they were made at.
pub proof fn auto_names_distinct(stamp_a: Seq<char>, i: nat, stamp_b: Seq<char>, j: nat)
    requires
        i != j,
    ensures
        auto_rolling_name(stamp_a, i) != auto_rolling_name(stamp_b, j),
{
    let xa = rolling_prefix() + seq![' '] + stamp_a + seq!['-', 'a', 'u', 't', 'o'];
    let xb = rolling_prefix() + seq![' '] + stamp_b + seq!['-', 'a', 'u', 't', 'o'];
    assert(auto_rolling_name(stamp_a, i) =~= xa + seq!['-'] + decimal(i));
    assert(auto_rolling_name(stamp_b, j) =~= xb + seq!['-'] + decimal(j));
    if auto_rolling_name(stamp_a, i) == auto_rolling_name(stamp_b, j) {
        lemma_decimal_shape(i);
        lemma_decimal_shape(j);
        lemma_digit_tail(xa, decimal(i), xb, decimal(j));
        lemma_decimal_injective(i, j);
    }
}

} // verus!
