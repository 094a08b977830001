//! The voucher records and the request and response shapes around them.

use vstd::prelude::*;

verus! {

/// A timestamp as the controller sends it: seconds since the epoch, or text
/// (decimal seconds, or an RFC 3339 date-time).
#[derive(Debug, Clone)]
pub enum WireTime {
    Epoch(i64),
    Text(String),
}

/// An optional count or cap as the controller sends it: absent, a flag, or an
/// integer.
#[derive(Debug, Clone, Copy)]
pub enum WireCount {
    Absent,
    Flag(bool),
    Signed(i64),
    Unsigned(u64),
}

/// A voucher as decoded from the controller, before normalisation.
#[derive(Debug, Clone)]
pub struct RawVoucher {
    pub id: String,
    pub created_at: WireTime,
    pub name: String,
    pub code: String,
    pub authorized_guest_limit: WireCount,
    pub authorized_guest_count: u64,
    pub activated_at: Option<WireTime>,
    pub expires_at: Option<WireTime>,
    pub time_limit_minutes: u64,
    pub data_usage_limit_mbytes: WireCount,
    pub tx_rate_limit_kbps: WireCount,
    pub rx_rate_limit_kbps: WireCount,
}

/// The canonical voucher record handed to callers.
#[derive(Debug, Clone)]
pub struct Voucher {
    pub id: String,
    pub created_at: String,
    pub name: String,
    pub code: String,
    pub authorized_guest_limit: Option<u64>,
    pub authorized_guest_count: u64,
    pub activated_at: Option<String>,
    pub expires_at: Option<String>,
    pub expired: bool,
    pub time_limit_minutes: u64,
    pub data_usage_limit_mbytes: Option<u64>,
    pub tx_rate_limit_kbps: Option<u64>,
    pub rx_rate_limit_kbps: Option<u64>,
}

#[derive(Debug, Clone)]
pub struct CreateVoucherRequest {
    pub count: u32,
    pub name: String,
    pub authorized_guest_limit: Option<u64>,
    pub time_limit_minutes: u64,
    pub data_usage_limit_mbytes: Option<u64>,
    pub rx_rate_limit_kbps: Option<u64>,
    pub tx_rate_limit_kbps: Option<u64>,
}

/// One entry of the controller's answer to a create command.
#[derive(Debug, Clone, Copy)]
pub struct CreateVoucherData {
    pub create_time: i64,
}

#[derive(Debug)]
pub struct CreateVoucherResponse {
    pub vouchers: Vec<Voucher>,
}

#[derive(Debug)]
pub struct GetVouchersResponse {
    pub data: Vec<Voucher>,
}

#[derive(Debug, Clone, Copy)]
pub struct DeleteResponse {
    pub vouchers_deleted: u32,
}

#[derive(Debug, Clone)]
pub struct HealthCheckResponse {
    pub status: String,
}

#[derive(Debug, Clone)]
pub struct DeleteRequest {
    pub ids: String,
}

#[derive(Debug, Clone)]
pub struct DetailsRequest {
    pub id: String,
}

#[derive(Debug, Clone)]
pub struct Site {
    pub id: String,
    pub internal_reference: String,
    pub name: String,
}

#[derive(Debug)]
pub struct GetSitesResponse {
    pub offset: u64,
    pub limit: u32,
    pub count: u32,
    pub total_count: u32,
    pub data: Vec<Site>,
}

#[derive(Debug, Clone)]
pub struct ErrorResponse {
    pub status_code: u32,
    pub status_name: String,
    pub message: String,
    pub timestamp: String,
    pub request_path: String,
    pub request_id: String,
}

/// Why an exchange with the controller did not complete.
#[derive(Debug, Clone, Copy, PartialEq, Eq, Structural)]
pub enum TransportCause {
    /// The connect or total deadline passed.
    Timeout,
    /// No connection could be made, or it was reset.
    Connect,
    /// The answer's body could not be read.
    Body,
    /// Any other failure of the exchange.
    Other,
}

/// The ways a controller operation can fail.
#[derive(Debug, Clone, Copy, PartialEq, Eq, Structural)]
pub enum ApiError {
    /// Logging in failed, or the controller refused the session twice.
    Auth,
    /// The exchange did not complete (connection, timeout).
    Transport { cause: TransportCause },
    /// The controller answered with this non-success status.
    Request { status: u16 },
    /// The controller's answer did not have the expected shape.
    Protocol,
    /// The voucher, or the candidate at the index asked for, does not exist.
    NotFound,
    /// The client address has already been issued a rolling voucher.
    PolicyViolation,
}

impl ApiError {
    /// The HTTP status that the route layer answers with for this error.
    pub fn status_code(&self) -> (r: u16)
        ensures
            r == match *self {
                ApiError::Auth => 401u16,
                ApiError::Transport { .. } => 502u16,
                ApiError::Request { status } => status,
                ApiError::Protocol => 500u16,
                ApiError::NotFound => 404u16,
                ApiError::PolicyViolation => 403u16,
            },
    {
        match self {
            ApiError::Auth => 401,
            ApiError::Transport { .. } => 502,
            ApiError::Request { status } => *status,
            ApiError::Protocol => 500,
            ApiError::NotFound => 404,
            ApiError::PolicyViolation => 403,
        }
    }
}

/// The coercion of an optional count: `true` is zero, `false` or absent is
/// unset, a non-negative integer is itself, a negative one is unset.
pub open spec fn count_value(w: WireCount) -> Option<u64> {
    match w {
        WireCount::Absent => None,
        WireCount::Flag(b) => if b { Some(0) } else { None },
        WireCount::Signed(i) => if i >= 0 { Some(i as u64) } else { None },
        WireCount::Unsigned(u) => Some(u),
    }
}

pub fn coerce_count(w: WireCount) -> (r: Option<u64>)
    ensures
        r == count_value(w),
{
    match w {
        WireCount::Absent => None,
        WireCount::Flag(b) => if b { Some(0) } else { None },
        WireCount::Signed(i) => if i >= 0 { Some(i as u64) } else { None },
        WireCount::Unsigned(u) => Some(u),
    }
}

} // verus!
