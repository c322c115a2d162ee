//! QR-code sign-in data, as the passport endpoints report it.

use vstd::prelude::*;

verus! {

/// Answer to asking for a sign-in QR code.
#[derive(Debug)]
pub struct QrCodeGetResp {
    /// Service status code.
    pub code: Option<i32>,
    /// Service status message.
    pub message: Option<String>,
    /// Timestamp the service reports.
    pub ttl: Option<u64>,
    /// The code to show.
    pub data: Option<QrGetData>,
}

/// A sign-in QR code: the URL it encodes and the key to poll with.
#[derive(Debug)]
pub struct QrGetData {
    /// The URL the QR code encodes.
    pub url: String,
    /// The key the poll endpoint asks for.
    pub qrcode_key: String,
}

/// Query for polling a QR sign-in.
#[derive(Debug)]
pub struct QrLoginQuery<'a> {
    /// The key from [`QrGetData`].
    pub qrcode_key: &'a str,
}

/// Answer to polling a QR sign-in.
#[derive(Debug)]
pub struct QrLoginResp {
    /// Service status code.
    pub code: Option<i32>,
    /// Service status message.
    pub message: Option<String>,
    /// Poll data, when the service reports any.
    pub data: Option<QrLoginData>,
}

/// Poll data of a QR sign-in.
#[derive(Debug)]
pub struct QrLoginData {
    /// Cross-domain URL for the game site.
    pub url: String,
    /// Token to refresh the session with.
    pub refresh_token: String,
    /// Server timestamp.
    pub timestamp: i64,
    /// Where the sign-in stands.
    pub code: QrLoginStatus,
}

/// Where a QR sign-in stands.
#[derive(Clone, Copy, Debug, PartialEq, Eq, Structural)]
pub enum QrLoginStatus {
    /// Signed in; wire value 0.
    Success,
    /// The code expired; wire value 86038.
    Expired,
    /// Scanned, not yet confirmed; wire value 86090.
    ScanNotConfirm,
    /// Not scanned yet; wire value 86101.
    NotScan,
}

/// The wire value of a sign-in status.
pub open spec fn qr_status_code(s: QrLoginStatus) -> i32 {
    match s {
        QrLoginStatus::Success => 0,
        QrLoginStatus::Expired => 86038,
        QrLoginStatus::ScanNotConfirm => 86090,
        QrLoginStatus::NotScan => 86101,
    }
}

/// The sign-in status a wire value maps to, if known.
pub open spec fn qr_status_from_code(v: i32) -> Option<QrLoginStatus> {
    if v == 0 {
        Some(QrLoginStatus::Success)
    } else if v == 86038 {
        Some(QrLoginStatus::Expired)
    } else if v == 86090 {
        Some(QrLoginStatus::ScanNotConfirm)
    } else if v == 86101 {
        Some(QrLoginStatus::NotScan)
    } else {
        None
    }
}

impl QrLoginStatus {
    /// The numeric wire value.
    pub fn to_i32(self) -> (v: i32)
        ensures
            v == qr_status_code(self),
    {
        match self {
            QrLoginStatus::Success => 0,
            QrLoginStatus::Expired => 86038,
            QrLoginStatus::ScanNotConfirm => 86090,
            QrLoginStatus::NotScan => 86101,
        }
    }

    /// The status for a numeric wire value, `None` when unknown.
    pub fn from_i32(v: i32) -> (s: Option<QrLoginStatus>)
        ensures
            s == qr_status_from_code(v),
    {
        match v {
            0 => Some(QrLoginStatus::Success),
            86038 => Some(QrLoginStatus::Expired),
            86090 => Some(QrLoginStatus::ScanNotConfirm),
            86101 => Some(QrLoginStatus::NotScan),
            _ => None,
        }
    }
}

impl Default for QrLoginStatus {
    /// A missing status field means signed in.
    fn default() -> (s: QrLoginStatus)
        ensures
            s == QrLoginStatus::Success,
    {
        QrLoginStatus::Success
    }
}

} // verus!
