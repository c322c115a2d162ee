//! Account information as the bootstrap endpoints report it.

use vstd::prelude::*;

use crate::share::{FromCode, VipStatus, VipType};

verus! {

/// Verified-account role of a user.
#[derive(Clone, Copy, Debug, PartialEq, Eq, Structural)]
pub enum OfficialRole {
    /// Not verified; wire value 0.
    Not,
    /// A verified person; wire values 1, 2 and 7.
    Personal,
    /// A verified organization; wire values 3 through 6.
    Organization,
    /// A code this library does not know.
    Unknown(i32),
}

impl FromCode for OfficialRole {
    open spec fn spec_from_code(code: i32) -> OfficialRole {
        if code == 0 {
            OfficialRole::Not
        } else if code == 1 || code == 2 || code == 7 {
            OfficialRole::Personal
        } else if 3 <= code <= 6 {
            OfficialRole::Organization
        } else {
            OfficialRole::Unknown(code)
        }
    }

    fn from_code(code: i32) -> (r: OfficialRole) {
        match code {
            0 => OfficialRole::Not,
            1 | 2 | 7 => OfficialRole::Personal,
            3..=6 => OfficialRole::Organization,
            unk => OfficialRole::Unknown(unk),
        }
    }
}

/// Verification of an account: its role and title.
#[derive(Debug)]
pub struct OfficialData {
    /// The role, when reported.
    pub role: Option<OfficialRole>,
    /// The verification title; an empty one is reported as absent.
    pub title: Option<String>,
}

/// Experience level of an account.
#[derive(Debug)]
pub struct LevelInfo {
    /// Current level.
    pub current_level: u32,
    /// Experience floor of the current level.
    pub current_min: u32,
    /// Experience gathered.
    pub current_exp: u32,
    /// Experience needed for the next level; absent at the top level,
    /// where the service reports a dash.
    pub next_exp: Option<u32>,
}

/// The signed-in account, as the navigation endpoint reports it. The two
/// coin balances the endpoint also carries are fractional and opaque to
/// this client; they are not modeled.
#[derive(Debug)]
pub struct NavInfo {
    /// Whether a user is signed in.
    pub is_login: bool,
    /// Whether the account's email is verified.
    pub email_verified: Option<bool>,
    /// Whether the account's phone number is verified.
    pub mobile_verified: Option<bool>,
    /// Avatar URL.
    pub avatar: Option<String>,
    /// Level data.
    pub level_info: Option<LevelInfo>,
    /// The user identifier the connection needs.
    pub mid: Option<u64>,
    /// Verification data.
    pub official: Option<OfficialData>,
    /// Displayed name.
    pub username: Option<String>,
    /// When the VIP standing runs out, as a unix timestamp in
    /// milliseconds.
    pub vip_due_date: Option<i64>,
    /// VIP account standing.
    pub vip_status: VipStatus,
    /// VIP kind.
    pub vip_type: Option<VipType>,
    /// Whether the account is a senior member.
    pub is_senior_member: Option<bool>,
    /// Whether the account serves on the jury.
    pub is_jury: Option<bool>,
}

/// The navigation endpoint's envelope around [`NavInfo`].
#[derive(Debug)]
pub struct NavInfoResp {
    /// Service status code.
    pub code: Option<i32>,
    /// Service status message.
    pub message: Option<String>,
    /// Time-to-live the service reports.
    pub ttl: Option<i32>,
    /// The account data.
    pub data: NavInfo,
}

} // verus!
