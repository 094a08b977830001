//! The rolling-voucher policy: duration, rate and data caps, and the minimum
//! size of the pool of unused rolling vouchers.

use vstd::prelude::*;

verus! {

/// The policy for rolling vouchers. The duration is held in whole minutes.
#[derive(Debug, Clone, Copy)]
pub struct RollingVoucherConfig {
    pub enabled: bool,
    pub duration_minutes: u64,
    pub download_mbps: Option<u64>,
    pub upload_mbps: Option<u64>,
    pub data_limit_mb: Option<u64>,
    pub min_rolling_vouchers: u32,
}

/// The default rolling voucher duration: one day.
pub const DEFAULT_ROLLING_DURATION_MINUTES: u64 = 1440;

/// The pool size kept when the policy does not give one.
pub fn default_min_rolling_vouchers() -> (r: u32)
    ensures
        r == 1,
{
    1
}

impl Default for RollingVoucherConfig {
    fn default() -> (r: Self)
        ensures
            !r.enabled,
            r.duration_minutes == DEFAULT_ROLLING_DURATION_MINUTES,
            r.download_mbps is None,
            r.upload_mbps is None,
            r.data_limit_mb is None,
            r.min_rolling_vouchers == 1,
    {
        RollingVoucherConfig {
            enabled: false,
            duration_minutes: DEFAULT_ROLLING_DURATION_MINUTES,
            download_mbps: None,
            upload_mbps: None,
            data_limit_mb: None,
            min_rolling_vouchers: default_min_rolling_vouchers(),
        }
    }
}

#[derive(Debug, Clone, Copy)]
pub struct VoucherConfig {
    pub rolling_voucher: RollingVoucherConfig,
}

/// A rate in Mbit/s as kbit/s; a rate too large to express is held at the
/// largest value.
pub open spec fn kbps_of(mbps: Option<u64>) -> Option<u64> {
    match mbps {
        Some(m) => Some(
            if m as int * 1000 > u64::MAX as int {
                u64::MAX
            } else {
                (m * 1000) as u64
            },
        ),
        None => None,
    }
}

fn to_kbps(mbps: Option<u64>) -> (r: Option<u64>)
    ensures
        r == kbps_of(mbps),
{
    match mbps {
        Some(m) => Some(if m > u64::MAX / 1000 { u64::MAX } else { m * 1000 }),
        None => None,
    }
}

impl VoucherConfig {
    pub fn duration_minutes(&self) -> (r: u64)
        ensures
            r == self.rolling_voucher.duration_minutes,
    {
        self.rolling_voucher.duration_minutes
    }

    pub fn download_kbps(&self) -> (r: Option<u64>)
        ensures
            r == kbps_of(self.rolling_voucher.download_mbps),
    {
        to_kbps(self.rolling_voucher.download_mbps)
    }

    pub fn upload_kbps(&self) -> (r: Option<u64>)
        ensures
            r == kbps_of(self.rolling_voucher.upload_mbps),
    {
        to_kbps(self.rolling_voucher.upload_mbps)
    }

    pub fn data_limit_mb(&self) -> (r: Option<u64>)
        ensures
            r == self.rolling_voucher.data_limit_mb,
    {
        self.rolling_voucher.data_limit_mb
    }
}

} // verus!
