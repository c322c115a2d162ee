//! Room and danmaku-server data from the bootstrap endpoints, and the
//! WebSocket endpoint a host entry names.

use vstd::prelude::*;

use crate::cmds::GuardLevel;
use crate::json::{push_bytes, push_decimal, spec_decimal};
use crate::share::{FromCode, RgbColor};
use vstd::string::StringSliceAdditionalSpecFns;
use vstd::utf8::encode_utf8;

verus! {

/// Query for resolving a user to their room.
#[derive(Debug)]
pub struct UidToRoomIdReq {
    /// The user.
    pub uid: u64,
}

/// Answer to resolving a user to their room.
#[derive(Debug)]
pub struct UidToRoomIdResp {
    /// Service status code.
    pub code: Option<i32>,
    /// Service status message.
    pub message: Option<String>,
    /// The room, when found.
    pub data: Option<RoomId>,
}

/// A resolved room identifier.
#[derive(Debug)]
pub struct RoomId {
    /// The real room identifier.
    pub room_id: u64,
}

/// Query for a room's base data.
#[derive(Debug)]
pub struct InitReq {
    /// The room, short or real.
    pub room_id: u64,
}

/// Answer to a room's base data.
#[derive(Debug)]
pub struct InitResp {
    /// Service status code.
    pub code: Option<i32>,
    /// Service status message.
    pub message: Option<String>,
    /// The room data.
    pub data: Option<InitData>,
}

/// Base data of a room.
#[derive(Debug)]
pub struct InitData {
    /// The real room identifier the connection needs.
    pub room_id: Option<u64>,
    /// The short identifier, when one exists.
    pub short_id: Option<u64>,
    /// The streamer.
    pub uid: Option<u64>,
    /// Whether peer-to-peer delivery is asked for.
    pub need_p2p: Option<bool>,
    /// Whether the room is hidden.
    pub is_hidden: Option<bool>,
    /// Whether the room is locked.
    pub is_locked: Option<bool>,
    /// Whether the room is in portrait mode.
    pub is_portrait: Option<bool>,
    /// Whether the room streams, idles or runs reruns.
    pub live_status: Option<LiveStatus>,
    /// Until when the room is hidden, unix seconds.
    pub hidden_till: Option<i64>,
    /// Until when the room is locked, unix seconds.
    pub lock_till: Option<i64>,
    /// Whether the room is password-protected.
    pub encrypted: Option<bool>,
    /// Whether the password was given.
    pub pwd_verified: Option<bool>,
    /// When the stream started, unix seconds.
    pub live_time: Option<i64>,
    /// Whether the room is special.
    pub is_special: Option<bool>,
    /// What kind of special room.
    pub special_type: Option<SpecialType>,
}

/// Whether a room streams, idles or runs reruns.
#[derive(Clone, Copy, Debug, PartialEq, Eq, Structural)]
pub enum LiveStatus {
    /// Idle; wire value 0.
    Stop,
    /// Streaming; wire value 1.
    Live,
    /// Reruns; wire value 2.
    Carousels,
}

/// The status a wire value maps to, if known.
pub open spec fn spec_live_status_from_u8(v: u8) -> Option<LiveStatus> {
    if v == 0 {
        Some(LiveStatus::Stop)
    } else if v == 1 {
        Some(LiveStatus::Live)
    } else if v == 2 {
        Some(LiveStatus::Carousels)
    } else {
        None
    }
}

impl LiveStatus {
    /// The status for a wire value, `None` when unknown.
    pub fn from_u8(v: u8) -> (r: Option<LiveStatus>)
        ensures
            r == spec_live_status_from_u8(v),
    {
        match v {
            0 => Some(LiveStatus::Stop),
            1 => Some(LiveStatus::Live),
            2 => Some(LiveStatus::Carousels),
            _ => None,
        }
    }
}

/// What kind of special room.
#[derive(Clone, Copy, Debug, PartialEq, Eq, Structural)]
pub enum SpecialType {
    /// An ordinary room; wire value 0.
    Normal,
    /// A paid room; wire value 1.
    Paid,
    /// A new-year room; wire value 2.
    NewYear,
    /// A code this library does not know.
    Unknown(i32),
}

impl FromCode for SpecialType {
    open spec fn spec_from_code(code: i32) -> SpecialType {
        if code == 0 {
            SpecialType::Normal
        } else if code == 1 {
            SpecialType::Paid
        } else if code == 2 {
            SpecialType::NewYear
        } else {
            SpecialType::Unknown(code)
        }
    }

    fn from_code(code: i32) -> (r: SpecialType) {
        match code {
            0 => SpecialType::Normal,
            1 => SpecialType::Paid,
            2 => SpecialType::NewYear,
            unk => SpecialType::Unknown(unk),
        }
    }
}

/// Query for a room's danmaku servers.
#[derive(Debug)]
pub struct DanmakuReq {
    /// The real room identifier.
    pub room_id: u64,
}

/// Answer to a room's danmaku servers.
#[derive(Debug)]
pub struct DanmakuResp {
    /// Service status code.
    pub code: Option<i32>,
    /// Service status message.
    pub message: Option<String>,
    /// Time-to-live the service reports.
    pub ttl: Option<i32>,
    /// The server data.
    pub data: Option<WssDanmaku>,
}

/// Danmaku-server data: the auth token and the hosts to reach. The two
/// fractional refresh knobs the endpoint also carries are opaque to this
/// client; they are not modeled.
#[derive(Debug)]
pub struct WssDanmaku {
    /// Server group.
    pub group: String,
    /// Largest tolerated delay.
    pub max_delay: u32,
    /// The auth token the certificate carries as `key`.
    pub token: String,
    /// The hosts to try, first first.
    pub host_list: Vec<WssHost>,
}

/// One danmaku host and its ports.
#[derive(Debug)]
pub struct WssHost {
    /// Host name.
    pub host: String,
    /// Plain port.
    pub port: u16,
    /// TLS WebSocket port, the one this client uses.
    pub wss_port: u16,
    /// Plain WebSocket port.
    pub ws_port: u16,
}

/// Whether the url crate parses this text as an absolute URL.
pub uninterp spec fn url_accepts(s: Seq<u8>) -> bool;

/// A parsed URL of the url crate.
#[verifier::external_type_specification]
#[verifier::external_body]
pub struct ExUrl(url::Url);

/// Why a host entry yields no URL.
#[derive(Clone, Copy, Debug, PartialEq, Eq, Structural)]
pub enum UrlError {
    /// The url crate rejected the composed text.
    Rejected,
    /// The composed text was no UTF-8 string; with a UTF-8 host name this
    /// does not happen.
    NotUtf8,
}

/// Relies on `url::Url::parse`: whether a text parses as a URL is a
/// function of the text alone.
#[verifier::external_body]
fn parse_url(s: &str) -> (r: Option<url::Url>)
    ensures
        r is Some <==> url_accepts(s.spec_bytes()),
{
    url::Url::parse(s).ok()
}

/// Relies on `String::from_utf8`: it accepts exactly the valid UTF-8
/// byte strings, and the returned string holds exactly the given bytes.
#[verifier::external_body]
fn bytes_to_string(v: Vec<u8>) -> (r: Option<String>)
    ensures
        r is Some <==> vstd::utf8::valid_utf8(v@),
        r matches Some(s) ==> encode_utf8(s@) == v@,
{
    String::from_utf8(v).ok()
}

/// `wss://`
pub open spec fn lit_wss() -> Seq<u8> {
    seq![119u8, 115u8, 115u8, 58u8, 47u8, 47u8]
}

/// `/sub`
pub open spec fn lit_sub() -> Seq<u8> {
    seq![47u8, 115u8, 117u8, 98u8]
}

/// The WebSocket endpoint text of a host entry:
/// `wss://{host}:{wss_port}/sub`.
pub open spec fn spec_wss_url_bytes(host: Seq<char>, wss_port: u16) -> Seq<u8> {
    lit_wss() + encode_utf8(host) + seq![58u8] + spec_decimal(wss_port as nat) + lit_sub()
}

impl WssHost {
    /// The endpoint text `wss://{host}:{wss_port}/sub` as bytes.
    pub fn url_bytes(&self) -> (r: Vec<u8>)
        ensures
            r@ == spec_wss_url_bytes(self.host@, self.wss_port),
    {
        let mut out: Vec<u8> = Vec::new();
        out.push(119);
        out.push(115);
        out.push(115);
        out.push(58);
        out.push(47);
        out.push(47);
        assert(out@ =~= lit_wss());
        push_bytes(&mut out, self.host.as_str().as_bytes());
        out.push(58);
        let ghost s1 = lit_wss() + encode_utf8(self.host@) + seq![58u8];
        assert(out@ =~= s1);
        push_decimal(&mut out, self.wss_port as u64);
        out.push(47);
        out.push(115);
        out.push(117);
        out.push(98);
        assert(out@ =~= spec_wss_url_bytes(self.host@, self.wss_port));
        out
    }

    /// The WebSocket endpoint of this host, parsed by the url crate.
    /// `Ok` exactly when the composed text is a UTF-8 string the url
    /// crate accepts.
    pub fn to_url(&self) -> (r: Result<url::Url, UrlError>)
        ensures
            ({
                let b = spec_wss_url_bytes(self.host@, self.wss_port);
                match r {
                    Ok(_) => vstd::utf8::valid_utf8(b) && url_accepts(b),
                    Err(e) => match e {
                        UrlError::NotUtf8 => !vstd::utf8::valid_utf8(b),
                        UrlError::Rejected => vstd::utf8::valid_utf8(b) && !url_accepts(b),
                    },
                }
            }),
    {
        let bytes = self.url_bytes();
        match bytes_to_string(bytes) {
            Some(s) => match parse_url(s.as_str()) {
                Some(u) => Ok(u),
                None => Err(UrlError::Rejected),
            },
            None => Err(UrlError::NotUtf8),
        }
    }
}

/// The medal a user wears, as command payloads carry it.
#[derive(Debug)]
pub struct MedalInfo {
    /// The medal owner's room.
    pub room_id: u64,
    /// The medal owner.
    pub liver_id: u64,
    /// The medal owner's name.
    pub liver_name: String,
    /// Guard tier of the wearer in that room.
    pub guard_level: GuardLevel,
    /// Icon identifier.
    pub icon_id: u64,
    /// Whether the medal is lit.
    pub is_lighted: bool,
    /// Medal color.
    pub medal_color: Option<RgbColor>,
    /// Border color.
    pub medal_color_border: Option<RgbColor>,
    /// Gradient start color.
    pub medal_color_start: Option<RgbColor>,
    /// Gradient end color.
    pub medal_color_end: Option<RgbColor>,
    /// Medal level.
    pub medal_level: u32,
    /// Medal name.
    pub medal_name: String,
    /// Special marker; an empty one is reported as absent.
    pub special: Option<String>,
}

/// A user as command payloads carry them.
#[derive(Debug)]
pub struct UserInfo {
    /// Avatar URL.
    pub avatar: String,
    /// Avatar frame URL; an empty one is reported as absent.
    pub avatar_frame: Option<String>,
    /// Guard tier in the room.
    pub guard_level: GuardLevel,
    /// Displayed name.
    pub username: String,
    /// Whether the user is a main-site VIP.
    pub is_main_vip: bool,
    /// Whether the user is a yearly VIP.
    pub is_year_vip: bool,
    /// Whether the user is a monthly VIP.
    pub is_month_vip: bool,
    /// Whether the user administers the room.
    pub is_admin: bool,
    /// Level color.
    pub level_color: Option<RgbColor>,
    /// Name color.
    pub name_color: Option<RgbColor>,
    /// User level.
    pub user_level: u32,
}

/// A gift as command payloads carry it.
#[derive(Debug)]
pub struct Gift {
    /// Gift identifier.
    pub id: u64,
    /// Gift name.
    pub gift_name: String,
    /// How many.
    pub num: u32,
}

} // verus!
