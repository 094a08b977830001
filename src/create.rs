//! Voucher creation: the create command sent to the controller, and the
//! picking of the vouchers it created out of a fresh listing.

use crate::models::{CreateVoucherData, CreateVoucherRequest, RawVoucher, Voucher, WireTime};
use crate::normalize::{normalizes_to, process_voucher};
use crate::text::{decimal_i64, parse_i64};
use vstd::prelude::*;

verus! {

/// The fields of a `create-voucher` command. A field that is `None` is left
/// out of the command.
#[derive(Debug, Clone)]
pub struct CreateCommand {
    pub count: u32,
    pub expire_minutes: u64,
    pub note: Option<String>,
    pub quota: Option<u64>,
    pub up_kbps: Option<u64>,
    pub down_kbps: Option<u64>,
    pub bytes_mb: Option<u64>,
}

/// A limit is sent only when it is set and above zero.
pub open spec fn positive(o: Option<u64>) -> Option<u64> {
    match o {
        Some(x) => if x > 0 { Some(x) } else { None },
        None => None,
    }
}

fn positive_of(o: Option<u64>) -> (r: Option<u64>)
    ensures
        r == positive(o),
{
    match o {
        Some(x) => if x > 0 { Some(x) } else { None },
        None => None,
    }
}

/// The command for a create request: the note only when the name is not
/// empty, each limit only when it is above zero.
pub fn create_command(request: &CreateVoucherRequest) -> (r: CreateCommand)
    ensures
        r.count == request.count,
        r.expire_minutes == request.time_limit_minutes,
        request.name@.len() == 0 ==> r.note is None,
        request.name@.len() > 0 ==> (r.note matches Some(n) && n@ == request.name@),
        r.quota == positive(request.authorized_guest_limit),
        r.up_kbps == positive(request.tx_rate_limit_kbps),
        r.down_kbps == positive(request.rx_rate_limit_kbps),
        r.bytes_mb == positive(request.data_usage_limit_mbytes),
{
    let note = if request.name.as_str().is_empty() {
        None
    } else {
        Some(request.name.clone())
    };
    CreateCommand {
        count: request.count,
        expire_minutes: request.time_limit_minutes,
        note,
        quota: positive_of(request.authorized_guest_limit),
        up_kbps: positive_of(request.tx_rate_limit_kbps),
        down_kbps: positive_of(request.rx_rate_limit_kbps),
        bytes_mb: positive_of(request.data_usage_limit_mbytes),
    }
}

/// The creation time of a decoded voucher in seconds: the number itself,
/// or text read as decimal seconds.
pub open spec fn raw_created_seconds(w: WireTime) -> Option<i64> {
    match w {
        WireTime::Epoch(t) => Some(t),
        WireTime::Text(s) => decimal_i64(s@),
    }
}

/// A decoded voucher was made by a create command that reported the
/// creation times `times`.
pub open spec fn made_at(v: RawVoucher, times: Seq<i64>) -> bool {
    match raw_created_seconds(v.created_at) {
        Some(t) => times.contains(t),
        None => false,
    }
}

/// The vouchers of `s` made at one of `times`, in their order in `s`.
pub open spec fn made_among(s: Seq<RawVoucher>, times: Seq<i64>) -> Seq<RawVoucher>
    decreases s.len(),
{
    if s.len() == 0 {
        s
    } else if made_at(s.last(), times) {
        made_among(s.drop_last(), times).push(s.last())
    } else {
        made_among(s.drop_last(), times)
    }
}

fn contains_time(times: &Vec<i64>, t: i64) -> (r: bool)
    ensures
        r == times@.contains(t),
{
    let mut k: usize = 0;
    while k < times.len()
        invariant
            0 <= k <= times@.len(),
            forall|j: int| 0 <= j < k ==> times@[j] != t,
        decreases times@.len() - k,
    {
        if times[k] == t {
            assert(times@[k as int] == t);
            return true;
        }
        k += 1;
    }
    false
}

fn is_made_at(v: &RawVoucher, times: &Vec<i64>) -> (r: bool)
    ensures
        r == made_at(*v, times@),
{
    let seconds = match &v.created_at {
        WireTime::Epoch(t) => Some(*t),
        WireTime::Text(s) => parse_i64(s.as_str()),
    };
    match seconds {
        Some(t) => contains_time(times, t),
        None => false,
    }
}

pub open spec fn min_len(a: int, b: int) -> int {
    if a <= b {
        a
    } else {
        b
    }
}

/// The vouchers that a create command made: out of a fresh listing, the first
/// `count` whose creation time is one the command reported, normalised at
/// `now` in `zone`.
pub fn select_created(raws: Vec<RawVoucher>, create_times: &Vec<i64>, count: u32, now: i64, zone: &str) -> (r: Vec<Voucher>)
    ensures
        r@.len() == min_len(count as int, made_among(raws@, create_times@).len() as int),
        forall|i: int|
            0 <= i < r@.len() ==> normalizes_to(made_among(raws@, create_times@)[i], #[trigger] r@[i], now, zone@),
{
    let ghost orig = raws@;
    let ghost times = create_times@;
    let mut rest = raws;
    let mut out: Vec<Voucher> = Vec::new();
    while rest.len() > 0
        invariant
            rest@.len() <= orig.len(),
            rest@ == orig.subrange(orig.len() - rest@.len(), orig.len() as int),
            times == create_times@,
            out@.len() == min_len(count as int, made_among(orig.subrange(0, orig.len() - rest@.len()), times).len() as int),
            forall|i: int|
                0 <= i < out@.len() ==> normalizes_to(
                    made_among(orig.subrange(0, orig.len() - rest@.len()), times)[i],
                    #[trigger] out@[i],
                    now,
                    zone@,
                ),
        decreases rest@.len(),
    {
        let ghost k = orig.len() - rest@.len();
        let v = rest.remove(0);
        assert(v == orig[k]);
        assert(orig.subrange(0, k + 1).drop_last() =~= orig.subrange(0, k));
        assert(orig.subrange(0, k + 1).last() == orig[k]);
        if is_made_at(&v, create_times) {
            proof {
                let m = made_among(orig.subrange(0, k), times);
                assert(made_among(orig.subrange(0, k + 1), times) == m.push(v));
            }
            if out.len() < count as usize {
                let n = process_voucher(v, now, zone);
                out.push(n);
            }
        }
    }
    assert(orig.subrange(0, orig.len() as int) =~= orig);
    out
}

/// The creation times a create command reported, in order.
pub fn create_times(data: &Vec<CreateVoucherData>) -> (r: Vec<i64>)
    ensures
        r@.len() == data@.len(),
        forall|i: int| 0 <= i < r@.len() ==> r@[i] == (#[trigger] data@[i]).create_time,
{
    let mut out: Vec<i64> = Vec::new();
    let mut k: usize = 0;
    while k < data.len()
        invariant
            0 <= k <= data@.len(),
            out@.len() == k,
            forall|i: int| 0 <= i < k ==> out@[i] == (#[trigger] data@[i]).create_time,
        decreases data@.len() - k,
    {
        out.push(data[k].create_time);
        k += 1;
    }
    out
}

} // verus!
