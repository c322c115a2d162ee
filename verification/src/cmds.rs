//! The command data model, and the decoding of danmaku records.
//!
//! Most commands arrive as tagged JSON objects that the caller decodes as
//! it pleases; the structs here give those shapes a home. The danmaku
//! command is different: its payload is a positional JSON array whose
//! fields this module extracts, element by element, with the exact rules
//! the wire uses. Timestamps are unix seconds; what only a calendar can
//! check — whether a second lies in the representable range — goes through
//! the time crate.

use vstd::prelude::*;

use crate::json::{spec_member, JsonNode};
use crate::share::{
    hex_bytes, spec_hex_bytes, ColorFromHex, ColorFromU32, FromCode, RgbColor,
};
use vstd::string::StringSliceAdditionalSpecFns;
use vstd::utf8::encode_utf8;

verus! {

/// Whether a unix timestamp lies in the calendar's representable range.
pub uninterp spec fn ts_valid(ts: i64) -> bool;

/// Relies on `time::OffsetDateTime::from_unix_timestamp`: whether a unix
/// timestamp lies in the supported calendar range is a function of the
/// value alone.
#[verifier::external_body]
pub(crate) fn timestamp_in_range(ts: i64) -> (r: bool)
    ensures
        r == ts_valid(ts),
{
    time::OffsetDateTime::from_unix_timestamp(ts).is_ok()
}

/// Why a danmaku record could not be decoded.
#[derive(Clone, Copy, Debug, PartialEq, Eq, Structural)]
pub enum CmdDeError {
    /// An element or member the record needs is absent.
    Missing,
    /// An element or member holds the wrong kind of JSON value.
    WrongType,
    /// A value is out of range or maps to nothing known.
    BadValue,
}

/// Tier of a room guard.
#[derive(Clone, Copy, Debug, PartialEq, Eq, Structural)]
pub enum GuardLevel {
    /// No guard; wire value 0.
    NoGuard,
    /// Governor; wire value 1.
    Governor,
    /// Admiral; wire value 2.
    Admiral,
    /// Captain; wire value 3.
    Captain,
}

/// The guard tier a wire value maps to, if known.
pub open spec fn spec_guard_from_u64(v: u64) -> Option<GuardLevel> {
    if v == 0 {
        Some(GuardLevel::NoGuard)
    } else if v == 1 {
        Some(GuardLevel::Governor)
    } else if v == 2 {
        Some(GuardLevel::Admiral)
    } else if v == 3 {
        Some(GuardLevel::Captain)
    } else {
        None
    }
}

impl GuardLevel {
    /// The guard tier for a wire value, `None` when unknown.
    pub fn from_u64(v: u64) -> (r: Option<GuardLevel>)
        ensures
            r == spec_guard_from_u64(v),
    {
        match v {
            0 => Some(GuardLevel::NoGuard),
            1 => Some(GuardLevel::Governor),
            2 => Some(GuardLevel::Admiral),
            3 => Some(GuardLevel::Captain),
            _ => None,
        }
    }
}

/// The bracketed label a guard tier is displayed with; empty for no
/// guard.
pub fn format_guard_level(level: GuardLevel) -> (r: &'static str)
    ensures
        match level {
            GuardLevel::NoGuard => r@ == ""@,
            GuardLevel::Governor => r@ == "[总督]"@,
            GuardLevel::Admiral => r@ == "[提督]"@,
            GuardLevel::Captain => r@ == "[舰长]"@,
        },
{
    match level {
        GuardLevel::NoGuard => "",
        GuardLevel::Governor => "[总督]",
        GuardLevel::Admiral => "[提督]",
        GuardLevel::Captain => "[舰长]",
    }
}

/// Display mode of a danmaku.
#[derive(Clone, Copy, Debug, PartialEq, Eq, Structural)]
pub enum DanmakuMode {
    /// Scrolling; wire value 1.
    Normal,
    /// Fixed at the bottom; wire value 4.
    Bottom,
    /// Fixed at the top; wire value 5.
    Top,
    /// Scrolling backwards; wire value 6.
    Back,
    /// Special; wire value 7.
    Special,
    /// Advanced; wire value 9.
    Advanced,
}

/// The display mode a wire value maps to, if known.
pub open spec fn spec_mode_from_u64(v: u64) -> Option<DanmakuMode> {
    if v == 1 {
        Some(DanmakuMode::Normal)
    } else if v == 4 {
        Some(DanmakuMode::Bottom)
    } else if v == 5 {
        Some(DanmakuMode::Top)
    } else if v == 6 {
        Some(DanmakuMode::Back)
    } else if v == 7 {
        Some(DanmakuMode::Special)
    } else if v == 9 {
        Some(DanmakuMode::Advanced)
    } else {
        None
    }
}

impl DanmakuMode {
    /// The display mode for a wire value, `None` when unknown.
    pub fn from_u64(v: u64) -> (r: Option<DanmakuMode>)
        ensures
            r == spec_mode_from_u64(v),
    {
        match v {
            1 => Some(DanmakuMode::Normal),
            4 => Some(DanmakuMode::Bottom),
            5 => Some(DanmakuMode::Top),
            6 => Some(DanmakuMode::Back),
            7 => Some(DanmakuMode::Special),
            9 => Some(DanmakuMode::Advanced),
            _ => None,
        }
    }
}

/// How a user entered the room.
#[derive(Clone, Copy, Debug, PartialEq, Eq, Structural)]
pub enum InteractType {
    /// Entered; wire value 1.
    Join,
    /// Subscribed; wire value 2.
    Subscribe,
    /// A code this library does not know.
    Unknown(i32),
}

impl FromCode for InteractType {
    open spec fn spec_from_code(code: i32) -> InteractType {
        if code == 1 {
            InteractType::Join
        } else if code == 2 {
            InteractType::Subscribe
        } else {
            InteractType::Unknown(code)
        }
    }

    fn from_code(code: i32) -> (r: InteractType) {
        match code {
            1 => InteractType::Join,
            2 => InteractType::Subscribe,
            unk => InteractType::Unknown(unk),
        }
    }
}

/// What a guard-purchase toast announces.
#[derive(Clone, Copy, Debug, PartialEq, Eq, Structural)]
pub enum UserToastType {
    /// First purchase; wire value 1.
    Buy,
    /// Renewal; wire value 2.
    Renewal,
    /// Automatic renewal; wire value 3.
    AutoRenewal,
    /// A code this library does not know.
    Unknown(i32),
}

impl FromCode for UserToastType {
    open spec fn spec_from_code(code: i32) -> UserToastType {
        if code == 1 {
            UserToastType::Buy
        } else if code == 2 {
            UserToastType::Renewal
        } else if code == 3 {
            UserToastType::AutoRenewal
        } else {
            UserToastType::Unknown(code)
        }
    }

    fn from_code(code: i32) -> (r: UserToastType) {
        match code {
            1 => UserToastType::Buy,
            2 => UserToastType::Renewal,
            3 => UserToastType::AutoRenewal,
            unk => UserToastType::Unknown(unk),
        }
    }
}

/// Whom a room silence covers.
#[derive(Clone, Copy, Debug, PartialEq, Eq, Structural)]
pub enum SilentType {
    /// Everyone; wire string `member`.
    Member,
    /// Medal holders; wire string `medal`.
    Medal,
    /// By user level; wire string `level`.
    Level,
    /// A string this library does not know.
    Unknown,
}

/// The silence kind a wire string maps to.
pub open spec fn spec_silent_type(s: Seq<u8>) -> SilentType {
    if s == seq![109u8, 101u8, 109u8, 98u8, 101u8, 114u8] {
        SilentType::Member
    } else if s == seq![109u8, 101u8, 100u8, 97u8, 108u8] {
        SilentType::Medal
    } else if s == seq![108u8, 101u8, 118u8, 101u8, 108u8] {
        SilentType::Level
    } else {
        SilentType::Unknown
    }
}

/// Whether two byte slices hold the same bytes.
#[verifier::loop_isolation(false)]
pub fn bytes_eq(a: &[u8], b: &[u8]) -> (r: bool)
    ensures
        r == (a@ == b@),
{
    if a.len() != b.len() {
        assert(a@.len() != b@.len());
        return false;
    }
    let mut i: usize = 0;
    while i < a.len()
        invariant
            i <= a@.len() == b@.len(),
            forall|j: int| 0 <= j < i ==> a@[j] == b@[j],
        decreases a@.len() - i,
    {
        if a[i] != b[i] {
            return false;
        }
        i = i + 1;
    }
    assert(a@ =~= b@);
    true
}

impl SilentType {
    /// The silence kind for a wire string; anything unknown maps to
    /// [`SilentType::Unknown`].
    pub fn from_str(s: &str) -> (r: SilentType)
        ensures
            r == spec_silent_type(s.spec_bytes()),
    {
        let b = s.as_bytes();
        let member: [u8; 6] = [109, 101, 109, 98, 101, 114];
        let medal: [u8; 5] = [109, 101, 100, 97, 108];
        let level: [u8; 5] = [108, 101, 118, 101, 108];
        assert(member@ =~= seq![109u8, 101u8, 109u8, 98u8, 101u8, 114u8]);
        assert(medal@ =~= seq![109u8, 101u8, 100u8, 97u8, 108u8]);
        assert(level@ =~= seq![108u8, 101u8, 118u8, 101u8, 108u8]);
        if bytes_eq(b, member.as_slice()) {
            SilentType::Member
        } else if bytes_eq(b, medal.as_slice()) {
            SilentType::Medal
        } else if bytes_eq(b, level.as_slice()) {
            SilentType::Level
        } else {
            SilentType::Unknown
        }
    }
}

/// When a room silence ends.
#[derive(Clone, Copy, Debug, PartialEq, Eq, Structural)]
pub enum RoomSilentTime {
    /// No end time was set; wire value -1.
    Once,
    /// Silenced until this unix second.
    Until(i64),
}

/// The end a wire value maps to: -1 is open-ended, a representable
/// timestamp is an end time, anything else is rejected.
pub open spec fn spec_silent_time(v: i64) -> Option<RoomSilentTime> {
    if v == -1 {
        Some(RoomSilentTime::Once)
    } else if ts_valid(v) {
        Some(RoomSilentTime::Until(v))
    } else {
        None
    }
}

impl RoomSilentTime {
    /// Decodes the wire value of a silence end.
    pub fn from_i64(v: i64) -> (r: Option<RoomSilentTime>)
        ensures
            r == spec_silent_time(v),
    {
        if v == -1 {
            Some(RoomSilentTime::Once)
        } else if timestamp_in_range(v) {
            Some(RoomSilentTime::Until(v))
        } else {
            None
        }
    }
}

/// The stream was cut off by a supervisor.
#[derive(Debug)]
pub struct CutOff {
    /// The reason given.
    pub message: String,
}

/// A supervisor warning to the room.
#[derive(Debug)]
pub struct Warning {
    /// The warning text.
    pub message: String,
}

/// The watched-count of the room changed.
#[derive(Debug)]
pub struct WatchedChange {
    /// The count.
    pub num: u32,
    /// The count as displayed, long form.
    pub text_large: String,
    /// The count as displayed, short form.
    pub text_small: String,
}

/// Count of ranked viewers changed.
#[derive(Debug)]
pub struct OnlineRankCount {
    /// The count.
    pub count: u32,
}

/// The stream went live.
#[derive(Debug)]
pub struct Living {
    /// The room.
    pub room_id: u64,
    /// Key of this live session.
    pub live_key: String,
    /// Background for voice rooms; an empty one is reported as absent.
    pub voice_background: Option<String>,
    /// Sub-session key.
    pub sub_session_key: String,
    /// Platform the streamer uses.
    pub live_platform: String,
    /// Mode of the stream.
    pub live_model: u32,
}

/// The stream ended.
#[derive(Debug)]
pub struct Preparing {
    /// The room.
    pub room_id: u64,
}

/// A user was made an administrator of the room.
#[derive(Debug)]
pub struct RoomAdminEntrance {
    /// The message shown.
    pub message: String,
    /// The user.
    pub uid: u64,
}

/// A user's administrator role was revoked.
#[derive(Debug)]
pub struct RoomAdminRevoke {
    /// The message shown.
    pub message: String,
    /// The user.
    pub uid: u64,
}

/// The room's administrators.
#[derive(Debug)]
pub struct RoomAdmins {
    /// Their user identifiers.
    pub uids: Vec<u64>,
}

/// A user was blocked in the room.
#[derive(Debug)]
pub struct RoomBlock {
    /// Score the service attaches.
    pub score: u32,
    /// Who blocked.
    pub opeartor: u32,
    /// The blocked user.
    pub uid: u64,
    /// The blocked user's name.
    pub uname: String,
}

/// Title or area of the room changed.
#[derive(Debug)]
pub struct RoomChange {
    /// New title.
    pub title: String,
    /// Area identifier.
    pub area_id: u32,
    /// Parent area identifier.
    pub parent_area_id: u32,
    /// Area name.
    pub area_name: String,
    /// Parent area name.
    pub parent_area_name: String,
}

/// Follower counts of the room changed.
#[derive(Debug)]
pub struct RoomRealTimeUpdate {
    /// Followers.
    pub fans: u64,
    /// Members of the fan club.
    pub fans_club: u64,
    /// The room.
    pub room_id: u64,
}

/// The room was silenced.
#[derive(Debug)]
pub struct RoomSilentOn {
    /// Minimum level, for level silences.
    pub level: u32,
    /// When the silence ends.
    pub time: RoomSilentTime,
    /// Whom it covers.
    pub silent_type: SilentType,
}

/// The room's shield lists.
#[derive(Debug)]
pub struct RoomShield {
    /// Kind of shield event.
    pub ty: u32,
    /// Shielded users.
    pub user: Vec<String>,
    /// Shielded keywords.
    pub keyword: Vec<String>,
}

/// Rooms that stopped streaming.
#[derive(Debug)]
pub struct StopLiveRoomList {
    /// Their room identifiers.
    pub list: Vec<u64>,
}

/// Super-chat messages were deleted.
#[derive(Debug)]
pub struct SuperChatDelete {
    /// Their identifiers.
    pub ids: Vec<u64>,
}

/// The super-chat entry button changed.
#[derive(Debug)]
pub struct SuperChatEntrance {
    /// Icon URL; an empty one is reported as absent.
    pub icon: Option<String>,
    /// Link target; an empty one is reported as absent.
    pub jump_url: Option<String>,
    /// Whether the entry shows.
    pub status: i32,
}

/// A guard purchase.
#[derive(Debug)]
pub struct GuardBuy {
    /// The buyer.
    pub uid: u64,
    /// The buyer's name.
    pub username: String,
    /// The tier bought.
    pub guard_level: GuardLevel,
    /// How many.
    pub num: u32,
    /// Price in batteries.
    pub price: u32,
    /// Gift identifier.
    pub gift_id: u32,
    /// Gift name; an empty one is reported as absent.
    pub gift_name: Option<String>,
    /// Start of the guard term, unix seconds.
    pub start_time: u64,
    /// End of the guard term, unix seconds.
    pub end_time: u64,
}

/// A user entered or subscribed.
#[derive(Debug)]
pub struct InteractWord {
    /// What happened.
    pub interact_type: InteractType,
    /// The room.
    pub room_id: u64,
    /// The user's name.
    pub username: String,
    /// The user.
    pub uid: u64,
    /// The user's medal.
    pub medal: crate::live::MedalInfo,
    /// When, in unix seconds, if representable.
    pub timestamp: Option<i64>,
}

/// A guard-purchase toast.
#[derive(Debug)]
pub struct UserToast {
    /// What the toast announces.
    pub op_type: UserToastType,
    /// The toast text.
    pub toast_msg: String,
    /// How many.
    pub num: u32,
    /// Unit of the term.
    pub unit: String,
    /// Price.
    pub price: u64,
    /// The tier bought.
    pub guard_level: GuardLevel,
    /// Role name shown.
    pub role_name: String,
    /// The buyer.
    pub uid: u64,
    /// The buyer's name.
    pub username: String,
    /// Whether the streamer sees it.
    pub anchor_show: bool,
    /// Whether the user sees it.
    pub user_show: bool,
    /// End of the term, unix seconds, if representable.
    pub end_time: Option<i64>,
    /// Toast color.
    pub color: Option<RgbColor>,
    /// Effect identifier.
    pub effect_id: u64,
    /// Face effect identifier.
    pub face_effect_id: u64,
    /// Gift identifier.
    pub gift_id: u64,
}

/// An emoticon sent as a whole danmaku.
#[derive(Debug, PartialEq, Eq)]
pub struct Emoticon {
    /// Unique identifier.
    pub unique: String,
    /// Image URL.
    pub url: String,
    /// Whether it displays enlarged.
    pub bulge_display: bool,
    /// Whether it displays in the player area.
    pub in_player_area: bool,
    /// Whether it is animated.
    pub is_dynamic: bool,
    /// Display height.
    pub height: u32,
    /// Display width.
    pub width: u32,
}

/// An emoticon referenced inline in danmaku text.
#[derive(Debug, PartialEq, Eq)]
pub struct InlineEmoticon {
    /// Identifier.
    pub id: u64,
    /// Unique identifier.
    pub unique: String,
    /// The text it replaces.
    pub emoji: String,
    /// Description.
    pub descript: String,
    /// Image URL.
    pub url: String,
    /// Display width.
    pub width: u32,
    /// Display height.
    pub height: u32,
    /// How often it occurs.
    pub count: usize,
}

/// The extra metadata of a danmaku: its inline emoticons, by the text
/// they replace, in document order.
#[derive(Debug, PartialEq, Eq)]
pub struct MetaExtra {
    /// The inline emoticons.
    pub emoticons: Vec<(String, InlineEmoticon)>,
}

/// Positional metadata of a danmaku.
#[derive(Debug)]
pub struct DanmakuMeta {
    /// Display mode.
    pub mode: DanmakuMode,
    /// Font size.
    pub font_size: u64,
    /// Text color, when the value fits.
    pub color: Option<RgbColor>,
    /// When it was sent, unix seconds, if representable.
    pub send_time: Option<i64>,
    /// Checksum over the sender identifier, when its hex form decodes.
    pub uid_crc32: Option<u32>,
    /// Whether the danmaku is one emoticon.
    pub is_emoticon: bool,
    /// The emoticon, when it is one.
    pub emoticon: Option<Emoticon>,
    /// The raw extra metadata: a JSON document in a string, decoded
    /// separately into [`MetaExtra`].
    pub extra_raw: String,
}

/// The sender of a danmaku.
#[derive(Debug)]
pub struct DanmakuUser {
    /// The user.
    pub uid: u64,
    /// The user's name.
    pub username: String,
    /// Whether the user administers the room.
    pub is_admin: bool,
    /// Whether the user is a monthly VIP.
    pub is_month_vip: bool,
    /// Whether the user is a yearly VIP.
    pub is_year_vip: bool,
    /// Name color; absent means the default.
    pub name_color: Option<RgbColor>,
}

/// A user's rank as the wire writes it: a string for the unranked, a
/// number otherwise.
#[derive(Debug, PartialEq, Eq)]
pub enum Rank {
    /// The textual form.
    Text(String),
    /// The numeric form.
    Num(u32),
}

/// The sender's experience level.
#[derive(Debug)]
pub struct UserLevel {
    /// The level.
    pub level: u32,
    /// The rank.
    pub rank: Rank,
}

/// The sender's medal.
#[derive(Debug)]
pub struct UserMedal {
    /// Whether the medal is lit.
    pub is_active: bool,
    /// Medal name.
    pub name: String,
    /// Medal level.
    pub level: u32,
    /// Guard tier of the sender in the medal's room.
    pub guard_level: GuardLevel,
    /// The medal owner's name.
    pub liver_name: String,
    /// The medal owner.
    pub liver_uid: u64,
    /// The medal owner's room.
    pub room_id: u64,
    /// Medal color.
    pub color: RgbColor,
    /// Medal gradient, three stops.
    pub gradient: (RgbColor, RgbColor, RgbColor),
}

/// A decoded danmaku record.
#[derive(Debug)]
pub struct DanmakuData {
    /// The text.
    pub content: String,
    /// Positional metadata.
    pub metadata: DanmakuMeta,
    /// The sender.
    pub user: DanmakuUser,
    /// The sender's medal, when one is worn.
    pub medal: Option<UserMedal>,
    /// The sender's level.
    pub level: UserLevel,
}

/// A danmaku command: the raw positional record, kept for decoding on
/// demand.
#[derive(Debug)]
pub struct Danmaku {
    /// The compressed v2 form, opaque to this client.
    pub v2: String,
    /// The positional record.
    pub raw_info: JsonNode,
}

impl Danmaku {
    /// Decodes the positional record.
    pub fn data(&self) -> (r: Result<DanmakuData, CmdDeError>)
        ensures
            r == DanmakuData::spec_from_node(self.raw_info),
    {
        DanmakuData::from_node(&self.raw_info)
    }
}

/// The value of four little-endian bytes, as the checksum field stores
/// its 32 bits on this wire.
pub open spec fn spec_u32_le(b: Seq<u8>) -> u32
    recommends
        b.len() == 4,
{
    (b[0] + b[1] * 0x100 + b[2] * 0x10000 + b[3] * 0x1000000) as u32
}

/// The checksum a hex string decodes to: exactly eight hex digits, read
/// as four little-endian bytes.
pub open spec fn spec_crc_from_hex(s: Seq<u8>) -> Option<u32> {
    match spec_hex_bytes(s) {
        Some(b) => if b.len() == 4 {
            Some(spec_u32_le(b))
        } else {
            None
        },
        None => None,
    }
}

/// Decodes the checksum field from its hex form.
pub fn crc_from_hex(s: &[u8]) -> (r: Option<u32>)
    ensures
        r == spec_crc_from_hex(s@),
{
    match hex_bytes(s) {
        Some(b) => if b.len() == 4 {
            Some(
                b[0] as u32 + b[1] as u32 * 0x100 + b[2] as u32 * 0x10000 + b[3] as u32
                    * 0x1000000,
            )
        } else {
            None
        },
        None => None,
    }
}

impl DanmakuMeta {
    /// What the positional metadata array decodes to: mode at 1, font
    /// size at 2, color at 3, send time at 4, sender checksum at 7,
    /// emoticon flag at 12 and the emoticon at 13 when flagged, and the
    /// raw extra string inside the object at 15.
    pub open spec fn spec_from_nodes(m: Seq<JsonNode>) -> Result<DanmakuMeta, CmdDeError> {
        if m.len() <= 15 {
            Err(CmdDeError::Missing)
        } else {
            match (m[1].spec_as_u64(), m[2].spec_as_u64(), m[3].spec_as_u64(),
            m[4].spec_as_i64()) {
                (Some(mode_raw), Some(font_size), Some(color_raw), Some(send_time_raw)) => {
                    match m[7] {
                        JsonNode::Str(crc_str) => match spec_mode_from_u64(mode_raw) {
                            Option::Some(mode) => match m[12].spec_as_u64() {
                                Option::Some(emo_flag) => {
                                    let is_emoticon = emo_flag == 1;
                                    match DanmakuMeta::spec_emoticon_at_13(m, is_emoticon) {
                                        Ok(emoticon) => match m[15] {
                                            JsonNode::Obj(pairs) => match spec_member(
                                                pairs@,
                                                "extra"@,
                                            ) {
                                                Option::Some(JsonNode::Str(extra_raw)) => Ok(
                                                    DanmakuMeta {
                                                        mode,
                                                        font_size,
                                                        color: if color_raw <= u32::MAX {
                                                            Some(
                                                                RgbColor::spec_from_u32(
                                                                    color_raw as u32,
                                                                ),
                                                            )
                                                        } else {
                                                            None
                                                        },
                                                        send_time: if ts_valid(send_time_raw) {
                                                            Some(send_time_raw)
                                                        } else {
                                                            None
                                                        },
                                                        uid_crc32: spec_crc_from_hex(
                                                            encode_utf8(crc_str@),
                                                        ),
                                                        is_emoticon,
                                                        emoticon,
                                                        extra_raw,
                                                    },
                                                ),
                                                Option::Some(_) => Err(CmdDeError::WrongType),
                                                Option::None => Err(CmdDeError::Missing),
                                            },
                                            _ => Err(CmdDeError::WrongType),
                                        },
                                        Err(e) => Err(e),
                                    }
                                },
                                Option::None => Err(CmdDeError::WrongType),
                            },
                            Option::None => Err(CmdDeError::BadValue),
                        },
                        _ => Err(CmdDeError::WrongType),
                    }
                },
                _ => Err(CmdDeError::WrongType),
            }
        }
    }

    /// The emoticon at element 13, demanded exactly when the record is
    /// flagged as an emoticon.
    pub open spec fn spec_emoticon_at_13(m: Seq<JsonNode>, is_emoticon: bool) -> Result<
        Option<Emoticon>,
        CmdDeError,
    > {
        if !is_emoticon {
            Ok(None)
        } else {
            match m[13] {
                JsonNode::Obj(_) => match Emoticon::spec_from_node(m[13]) {
                    Ok(e) => Ok(Some(e)),
                    Err(e) => Err(e),
                },
                _ => Err(CmdDeError::WrongType),
            }
        }
    }

    /// Decodes the positional metadata array.
    pub fn from_nodes(m: &Vec<JsonNode>) -> (r: Result<DanmakuMeta, CmdDeError>)
        ensures
            r == DanmakuMeta::spec_from_nodes(m@),
    {
        if m.len() <= 15 {
            return Err(CmdDeError::Missing);
        }
        let mode_raw = match m[1].as_u64() {
            Some(v) => v,
            None => {
                return Err(CmdDeError::WrongType);
            },
        };
        let font_size = match m[2].as_u64() {
            Some(v) => v,
            None => {
                return Err(CmdDeError::WrongType);
            },
        };
        let color_raw = match m[3].as_u64() {
            Some(v) => v,
            None => {
                return Err(CmdDeError::WrongType);
            },
        };
        let send_time_raw = match m[4].as_i64() {
            Some(v) => v,
            None => {
                return Err(CmdDeError::WrongType);
            },
        };
        let crc_str = match &m[7] {
            JsonNode::Str(s) => s,
            _ => {
                return Err(CmdDeError::WrongType);
            },
        };
        let mode = match DanmakuMode::from_u64(mode_raw) {
            Some(v) => v,
            None => {
                return Err(CmdDeError::BadValue);
            },
        };
        let emo_flag = match m[12].as_u64() {
            Some(v) => v,
            None => {
                return Err(CmdDeError::WrongType);
            },
        };
        let is_emoticon = emo_flag == 1;
        let emoticon: Option<Emoticon> = if is_emoticon {
            match &m[13] {
                JsonNode::Obj(_) => match Emoticon::from_node(&m[13]) {
                    Ok(e) => Some(e),
                    Err(e) => {
                        return Err(e);
                    },
                },
                _ => {
                    return Err(CmdDeError::WrongType);
                },
            }
        } else {
            None
        };
        let extra_key = String::from_str("extra");
        let extra_raw = match &m[15] {
            JsonNode::Obj(_) => match m[15].member(&extra_key) {
                Some(JsonNode::Str(s)) => s.clone(),
                Some(_) => {
                    return Err(CmdDeError::WrongType);
                },
                None => {
                    return Err(CmdDeError::Missing);
                },
            },
            _ => {
                return Err(CmdDeError::WrongType);
            },
        };
        let color = if color_raw <= u32::MAX as u64 {
            Some(RgbColor::from_u32(color_raw as u32))
        } else {
            None
        };
        let send_time = if timestamp_in_range(send_time_raw) {
            Some(send_time_raw)
        } else {
            None
        };
        let uid_crc32 = crc_from_hex(crc_str.as_str().as_bytes());
        Ok(
            DanmakuMeta {
                mode,
                font_size,
                color,
                send_time,
                uid_crc32,
                is_emoticon,
                emoticon,
                extra_raw,
            },
        )
    }
}

impl Emoticon {
    /// What an emoticon object decodes to: its unique name and URL, the
    /// three flags as 0-or-1 integers, and its size.
    pub open spec fn spec_from_node(n: JsonNode) -> Result<Emoticon, CmdDeError> {
        match (spec_str_member(n, "emoticon_unique"@), spec_str_member(n, "url"@)) {
            (Ok(unique), Ok(url)) => {
                match (spec_bool_member(n, "bulge_display"@), spec_bool_member(
                    n,
                    "in_player_area"@,
                ), spec_bool_member(n, "is_dynamic"@)) {
                    (Ok(bulge_display), Ok(in_player_area), Ok(is_dynamic)) => {
                        match (spec_u32_member(n, "height"@), spec_u32_member(n, "width"@)) {
                            (Ok(height), Ok(width)) => Ok(
                                Emoticon {
                                    unique,
                                    url,
                                    bulge_display,
                                    in_player_area,
                                    is_dynamic,
                                    height,
                                    width,
                                },
                            ),
                            (Err(e), _) => Err(e),
                            (_, Err(e)) => Err(e),
                        }
                    },
                    (Err(e), _, _) => Err(e),
                    (_, Err(e), _) => Err(e),
                    (_, _, Err(e)) => Err(e),
                }
            },
            (Err(e), _) => Err(e),
            (_, Err(e)) => Err(e),
        }
    }

    /// Decodes an emoticon object.
    pub fn from_node(n: &JsonNode) -> (r: Result<Emoticon, CmdDeError>)
        ensures
            r == Emoticon::spec_from_node(*n),
    {
        let unique = match str_member(n, "emoticon_unique") {
            Ok(s) => s,
            Err(e) => {
                return Err(e);
            },
        };
        let url = match str_member(n, "url") {
            Ok(s) => s,
            Err(e) => {
                return Err(e);
            },
        };
        let bulge_display = match bool_member(n, "bulge_display") {
            Ok(b) => b,
            Err(e) => {
                return Err(e);
            },
        };
        let in_player_area = match bool_member(n, "in_player_area") {
            Ok(b) => b,
            Err(e) => {
                return Err(e);
            },
        };
        let is_dynamic = match bool_member(n, "is_dynamic") {
            Ok(b) => b,
            Err(e) => {
                return Err(e);
            },
        };
        let height = match u32_member(n, "height") {
            Ok(v) => v,
            Err(e) => {
                return Err(e);
            },
        };
        let width = match u32_member(n, "width") {
            Ok(v) => v,
            Err(e) => {
                return Err(e);
            },
        };
        Ok(Emoticon { unique, url, bulge_display, in_player_area, is_dynamic, height, width })
    }
}

/// The string member named `key`, demanded of an object.
pub open spec fn spec_str_member(n: JsonNode, key: Seq<char>) -> Result<String, CmdDeError> {
    match n {
        JsonNode::Obj(pairs) => match spec_member(pairs@, key) {
            Option::Some(JsonNode::Str(s)) => Ok(s),
            Option::Some(_) => Err(CmdDeError::WrongType),
            Option::None => Err(CmdDeError::Missing),
        },
        _ => Err(CmdDeError::WrongType),
    }
}

/// The 0-or-1 integer member named `key`, demanded of an object, as the
/// wire writes booleans.
pub open spec fn spec_bool_member(n: JsonNode, key: Seq<char>) -> Result<bool, CmdDeError> {
    match n {
        JsonNode::Obj(pairs) => match spec_member(pairs@, key) {
            Option::Some(m) => match m.spec_as_u64() {
                Option::Some(v) => if v == 0 {
                    Ok(false)
                } else if v == 1 {
                    Ok(true)
                } else {
                    Err(CmdDeError::BadValue)
                },
                Option::None => Err(CmdDeError::WrongType),
            },
            Option::None => Err(CmdDeError::Missing),
        },
        _ => Err(CmdDeError::WrongType),
    }
}

/// The 32-bit integer member named `key`, demanded of an object.
pub open spec fn spec_u32_member(n: JsonNode, key: Seq<char>) -> Result<u32, CmdDeError> {
    match n {
        JsonNode::Obj(pairs) => match spec_member(pairs@, key) {
            Option::Some(m) => match m.spec_as_u64() {
                Option::Some(v) => if v <= u32::MAX {
                    Ok(v as u32)
                } else {
                    Err(CmdDeError::BadValue)
                },
                Option::None => Err(CmdDeError::WrongType),
            },
            Option::None => Err(CmdDeError::Missing),
        },
        _ => Err(CmdDeError::WrongType),
    }
}

/// Reads the string member named `key` of an object.
pub fn str_member(n: &JsonNode, key: &str) -> (r: Result<String, CmdDeError>)
    ensures
        r == spec_str_member(*n, key@),
{
    let k = String::from_str(key);
    match n {
        JsonNode::Obj(_) => match n.member(&k) {
            Some(JsonNode::Str(s)) => Ok(s.clone()),
            Some(_) => Err(CmdDeError::WrongType),
            None => Err(CmdDeError::Missing),
        },
        _ => Err(CmdDeError::WrongType),
    }
}

/// Reads the 0-or-1 integer member named `key` of an object as a boolean.
pub fn bool_member(n: &JsonNode, key: &str) -> (r: Result<bool, CmdDeError>)
    ensures
        r == spec_bool_member(*n, key@),
{
    let k = String::from_str(key);
    match n {
        JsonNode::Obj(_) => match n.member(&k) {
            Some(m) => match m.as_u64() {
                Some(0) => Ok(false),
                Some(1) => Ok(true),
                Some(_) => Err(CmdDeError::BadValue),
                None => Err(CmdDeError::WrongType),
            },
            None => Err(CmdDeError::Missing),
        },
        _ => Err(CmdDeError::WrongType),
    }
}

/// Reads the 32-bit integer member named `key` of an object.
pub fn u32_member(n: &JsonNode, key: &str) -> (r: Result<u32, CmdDeError>)
    ensures
        r == spec_u32_member(*n, key@),
{
    let k = String::from_str(key);
    match n {
        JsonNode::Obj(_) => match n.member(&k) {
            Some(m) => match m.as_u64() {
                Some(v) => if v <= u32::MAX as u64 {
                    Ok(v as u32)
                } else {
                    Err(CmdDeError::BadValue)
                },
                None => Err(CmdDeError::WrongType),
            },
            None => Err(CmdDeError::Missing),
        },
        _ => Err(CmdDeError::WrongType),
    }
}

impl DanmakuUser {
    /// What the positional sender array decodes to: identifier at 0, name
    /// at 1, the three flags at 2 through 4, and the name color at 7,
    /// where a string that is no color means the default.
    pub open spec fn spec_from_nodes(d: Seq<JsonNode>) -> Result<DanmakuUser, CmdDeError> {
        if d.len() <= 7 {
            Err(CmdDeError::Missing)
        } else {
            match (d[0].spec_as_u64(), d[2].spec_as_u64(), d[3].spec_as_u64(),
            d[4].spec_as_u64()) {
                (Some(uid), Some(admin_flag), Some(year_flag), Some(month_flag)) => {
                    match (d[1], d[7]) {
                        (JsonNode::Str(username), JsonNode::Str(color_str)) => Ok(
                            DanmakuUser {
                                uid,
                                username,
                                is_admin: admin_flag == 1,
                                is_month_vip: month_flag == 1,
                                is_year_vip: year_flag == 1,
                                name_color: crate::share::spec_rgb_from_hex(
                                    encode_utf8(color_str@),
                                ),
                            },
                        ),
                        _ => Err(CmdDeError::WrongType),
                    }
                },
                _ => Err(CmdDeError::WrongType),
            }
        }
    }

    /// Decodes the positional sender array.
    pub fn from_nodes(d: &Vec<JsonNode>) -> (r: Result<DanmakuUser, CmdDeError>)
        ensures
            r == DanmakuUser::spec_from_nodes(d@),
    {
        if d.len() <= 7 {
            return Err(CmdDeError::Missing);
        }
        let uid = match d[0].as_u64() {
            Some(v) => v,
            None => {
                return Err(CmdDeError::WrongType);
            },
        };
        let admin_flag = match d[2].as_u64() {
            Some(v) => v,
            None => {
                return Err(CmdDeError::WrongType);
            },
        };
        let year_flag = match d[3].as_u64() {
            Some(v) => v,
            None => {
                return Err(CmdDeError::WrongType);
            },
        };
        let month_flag = match d[4].as_u64() {
            Some(v) => v,
            None => {
                return Err(CmdDeError::WrongType);
            },
        };
        let username = match &d[1] {
            JsonNode::Str(s) => s.clone(),
            _ => {
                return Err(CmdDeError::WrongType);
            },
        };
        let name_color = match &d[7] {
            JsonNode::Str(s) => RgbColor::from_str(s.as_str()),
            _ => {
                return Err(CmdDeError::WrongType);
            },
        };
        Ok(
            DanmakuUser {
                uid,
                username,
                is_admin: admin_flag == 1,
                is_month_vip: month_flag == 1,
                is_year_vip: year_flag == 1,
                name_color,
            },
        )
    }
}

impl UserLevel {
    /// What the positional level array decodes to: the level at 0,
    /// narrowed to 32 bits, and the rank at 3, a string or a 32-bit
    /// number.
    pub open spec fn spec_from_nodes(d: Seq<JsonNode>) -> Result<UserLevel, CmdDeError> {
        if d.len() <= 3 {
            Err(CmdDeError::Missing)
        } else {
            match d[0].spec_as_u64() {
                Option::Some(level_raw) => if level_raw <= u32::MAX {
                    match d[3] {
                        JsonNode::Str(s) => Ok(
                            UserLevel { level: level_raw as u32, rank: Rank::Text(s) },
                        ),
                        JsonNode::UInt(n) => if n <= u32::MAX {
                            Ok(UserLevel { level: level_raw as u32, rank: Rank::Num(n as u32) })
                        } else {
                            Err(CmdDeError::BadValue)
                        },
                        _ => Err(CmdDeError::WrongType),
                    }
                } else {
                    Err(CmdDeError::BadValue)
                },
                Option::None => Err(CmdDeError::WrongType),
            }
        }
    }

    /// Decodes the positional level array.
    pub fn from_nodes(d: &Vec<JsonNode>) -> (r: Result<UserLevel, CmdDeError>)
        ensures
            r == UserLevel::spec_from_nodes(d@),
    {
        if d.len() <= 3 {
            return Err(CmdDeError::Missing);
        }
        let level_raw = match d[0].as_u64() {
            Some(v) => v,
            None => {
                return Err(CmdDeError::WrongType);
            },
        };
        if level_raw > u32::MAX as u64 {
            return Err(CmdDeError::BadValue);
        }
        match &d[3] {
            JsonNode::Str(s) => Ok(UserLevel { level: level_raw as u32, rank: Rank::Text(s.clone()) }),
            JsonNode::UInt(n) => if *n <= u32::MAX as u64 {
                Ok(UserLevel { level: level_raw as u32, rank: Rank::Num(*n as u32) })
            } else {
                Err(CmdDeError::BadValue)
            },
            _ => Err(CmdDeError::WrongType),
        }
    }
}

impl UserMedal {
    /// What the positional medal array decodes to: level at 0 narrowed to
    /// 32 bits, name at 1, owner name at 2, room at 3, the colors at 4
    /// and 7 through 9 as packed 32-bit values, guard tier at 10, the lit
    /// flag at 11, and the owner at 12.
    pub open spec fn spec_from_nodes(d: Seq<JsonNode>) -> Result<UserMedal, CmdDeError> {
        if d.len() <= 12 {
            Err(CmdDeError::Missing)
        } else {
            match (d[0].spec_as_u64(), d[3].spec_as_u64(), d[4].spec_as_u64(),
            d[7].spec_as_u64()) {
                (Some(level_raw), Some(room_id), Some(color_raw), Some(g1_raw)) => {
                    match (d[8].spec_as_u64(), d[9].spec_as_u64(), d[10].spec_as_u64(),
                    d[12].spec_as_u64()) {
                        (Some(g2_raw), Some(g3_raw), Some(guard_raw), Some(liver_uid)) => {
                            match (d[1], d[2]) {
                                (JsonNode::Str(name), JsonNode::Str(liver_name)) => {
                                    match d[11].spec_as_u64() {
                                        Option::Some(active_flag) => UserMedal::spec_convert(
                                            level_raw,
                                            name,
                                            liver_name,
                                            room_id,
                                            color_raw,
                                            g1_raw,
                                            g2_raw,
                                            g3_raw,
                                            guard_raw,
                                            liver_uid,
                                            active_flag == 1,
                                        ),
                                        Option::None => Err(CmdDeError::WrongType),
                                    }
                                },
                                _ => Err(CmdDeError::WrongType),
                            }
                        },
                        _ => Err(CmdDeError::WrongType),
                    }
                },
                _ => Err(CmdDeError::WrongType),
            }
        }
    }

    /// The conversions after extraction: the level must fit 32 bits, the
    /// four colors must fit 32 bits, the guard tier must be known.
    pub open spec fn spec_convert(
        level_raw: u64,
        name: String,
        liver_name: String,
        room_id: u64,
        color_raw: u64,
        g1_raw: u64,
        g2_raw: u64,
        g3_raw: u64,
        guard_raw: u64,
        liver_uid: u64,
        is_active: bool,
    ) -> Result<UserMedal, CmdDeError> {
        if level_raw > u32::MAX {
            Err(CmdDeError::BadValue)
        } else if color_raw > u32::MAX || g1_raw > u32::MAX || g2_raw > u32::MAX || g3_raw
            > u32::MAX {
            Err(CmdDeError::BadValue)
        } else {
            match spec_guard_from_u64(guard_raw) {
                Option::Some(guard_level) => Ok(
                    UserMedal {
                        is_active,
                        name,
                        level: level_raw as u32,
                        guard_level,
                        liver_name,
                        liver_uid,
                        room_id,
                        color: RgbColor::spec_from_u32(color_raw as u32),
                        gradient: (
                            RgbColor::spec_from_u32(g1_raw as u32),
                            RgbColor::spec_from_u32(g2_raw as u32),
                            RgbColor::spec_from_u32(g3_raw as u32),
                        ),
                    },
                ),
                Option::None => Err(CmdDeError::BadValue),
            }
        }
    }

    /// Decodes the positional medal array.
    pub fn from_nodes(d: &Vec<JsonNode>) -> (r: Result<UserMedal, CmdDeError>)
        ensures
            r == UserMedal::spec_from_nodes(d@),
    {
        if d.len() <= 12 {
            return Err(CmdDeError::Missing);
        }
        let level_raw = match d[0].as_u64() {
            Some(v) => v,
            None => {
                return Err(CmdDeError::WrongType);
            },
        };
        let room_id = match d[3].as_u64() {
            Some(v) => v,
            None => {
                return Err(CmdDeError::WrongType);
            },
        };
        let color_raw = match d[4].as_u64() {
            Some(v) => v,
            None => {
                return Err(CmdDeError::WrongType);
            },
        };
        let g1_raw = match d[7].as_u64() {
            Some(v) => v,
            None => {
                return Err(CmdDeError::WrongType);
            },
        };
        let g2_raw = match d[8].as_u64() {
            Some(v) => v,
            None => {
                return Err(CmdDeError::WrongType);
            },
        };
        let g3_raw = match d[9].as_u64() {
            Some(v) => v,
            None => {
                return Err(CmdDeError::WrongType);
            },
        };
        let guard_raw = match d[10].as_u64() {
            Some(v) => v,
            None => {
                return Err(CmdDeError::WrongType);
            },
        };
        let liver_uid = match d[12].as_u64() {
            Some(v) => v,
            None => {
                return Err(CmdDeError::WrongType);
            },
        };
        let name = match &d[1] {
            JsonNode::Str(s) => s.clone(),
            _ => {
                return Err(CmdDeError::WrongType);
            },
        };
        let liver_name = match &d[2] {
            JsonNode::Str(s) => s.clone(),
            _ => {
                return Err(CmdDeError::WrongType);
            },
        };
        let active_flag = match d[11].as_u64() {
            Some(v) => v,
            None => {
                return Err(CmdDeError::WrongType);
            },
        };
        let is_active = active_flag == 1;
        if level_raw > u32::MAX as u64 {
            return Err(CmdDeError::BadValue);
        }
        if color_raw > u32::MAX as u64 || g1_raw > u32::MAX as u64 || g2_raw > u32::MAX as u64
            || g3_raw > u32::MAX as u64 {
            return Err(CmdDeError::BadValue);
        }
        let guard_level = match GuardLevel::from_u64(guard_raw) {
            Some(g) => g,
            None => {
                return Err(CmdDeError::BadValue);
            },
        };
        Ok(
            UserMedal {
                is_active,
                name,
                level: level_raw as u32,
                guard_level,
                liver_name,
                liver_uid,
                room_id,
                color: RgbColor::from_u32(color_raw as u32),
                gradient: (
                    RgbColor::from_u32(g1_raw as u32),
                    RgbColor::from_u32(g2_raw as u32),
                    RgbColor::from_u32(g3_raw as u32),
                ),
            },
        )
    }
}

impl DanmakuData {
    /// What a whole danmaku record decodes to: an array with the metadata
    /// array at 0, the text at 1, the sender array at 2, the medal array
    /// at 3 — empty when no medal is worn — and the level array at 4.
    pub open spec fn spec_from_node(info: JsonNode) -> Result<DanmakuData, CmdDeError> {
        match info {
            JsonNode::Arr(elems) => {
                let e = elems@;
                if e.len() <= 4 {
                    Err(CmdDeError::Missing)
                } else {
                    match (e[0], e[1], e[2], e[3], e[4]) {
                        (
                            JsonNode::Arr(meta),
                            JsonNode::Str(content),
                            JsonNode::Arr(user),
                            JsonNode::Arr(medal),
                            JsonNode::Arr(level),
                        ) => {
                            match (DanmakuMeta::spec_from_nodes(meta@),
                            DanmakuUser::spec_from_nodes(user@), UserLevel::spec_from_nodes(
                                level@,
                            )) {
                                (Ok(metadata), Ok(user_v), Ok(level_v)) => {
                                    if medal@.len() == 0 {
                                        Ok(
                                            DanmakuData {
                                                content,
                                                metadata,
                                                user: user_v,
                                                medal: None,
                                                level: level_v,
                                            },
                                        )
                                    } else {
                                        match UserMedal::spec_from_nodes(medal@) {
                                            Ok(medal_v) => Ok(
                                                DanmakuData {
                                                    content,
                                                    metadata,
                                                    user: user_v,
                                                    medal: Some(medal_v),
                                                    level: level_v,
                                                },
                                            ),
                                            Err(e2) => Err(e2),
                                        }
                                    }
                                },
                                (Err(e2), _, _) => Err(e2),
                                (_, Err(e2), _) => Err(e2),
                                (_, _, Err(e2)) => Err(e2),
                            }
                        },
                        _ => Err(CmdDeError::WrongType),
                    }
                }
            },
            _ => Err(CmdDeError::WrongType),
        }
    }

    /// Decodes a whole danmaku record.
    pub fn from_node(info: &JsonNode) -> (r: Result<DanmakuData, CmdDeError>)
        ensures
            r == DanmakuData::spec_from_node(*info),
    {
        let elems = match info {
            JsonNode::Arr(v) => v,
            _ => {
                return Err(CmdDeError::WrongType);
            },
        };
        if elems.len() <= 4 {
            return Err(CmdDeError::Missing);
        }
        let meta = match &elems[0] {
            JsonNode::Arr(v) => v,
            _ => {
                return Err(CmdDeError::WrongType);
            },
        };
        let content = match &elems[1] {
            JsonNode::Str(s) => s,
            _ => {
                return Err(CmdDeError::WrongType);
            },
        };
        let user = match &elems[2] {
            JsonNode::Arr(v) => v,
            _ => {
                return Err(CmdDeError::WrongType);
            },
        };
        let medal = match &elems[3] {
            JsonNode::Arr(v) => v,
            _ => {
                return Err(CmdDeError::WrongType);
            },
        };
        let level = match &elems[4] {
            JsonNode::Arr(v) => v,
            _ => {
                return Err(CmdDeError::WrongType);
            },
        };
        let metadata = match DanmakuMeta::from_nodes(meta) {
            Ok(v) => v,
            Err(e) => {
                return Err(e);
            },
        };
        let user_v = match DanmakuUser::from_nodes(user) {
            Ok(v) => v,
            Err(e) => {
                return Err(e);
            },
        };
        let level_v = match UserLevel::from_nodes(level) {
            Ok(v) => v,
            Err(e) => {
                return Err(e);
            },
        };
        let medal_v = if medal.len() == 0 {
            None
        } else {
            match UserMedal::from_nodes(medal) {
                Ok(v) => Some(v),
                Err(e) => {
                    return Err(e);
                },
            }
        };
        Ok(
            DanmakuData {
                content: content.clone(),
                metadata,
                user: user_v,
                medal: medal_v,
                level: level_v,
            },
        )
    }
}

impl InlineEmoticon {
    /// What an inline-emoticon object decodes to: identifier, unique
    /// name, the text it replaces, description, URL, size and count.
    pub open spec fn spec_from_node(n: JsonNode) -> Result<InlineEmoticon, CmdDeError> {
        match (spec_u64_member(n, "emoticon_id"@), spec_str_member(n, "emoticon_unique"@)) {
            (Ok(id), Ok(unique)) => {
                match (spec_str_member(n, "emoji"@), spec_str_member(n, "descript"@),
                spec_str_member(n, "url"@)) {
                    (Ok(emoji), Ok(descript), Ok(url)) => {
                        match (spec_u32_member(n, "width"@), spec_u32_member(n, "height"@),
                        spec_usize_member(n, "count"@)) {
                            (Ok(width), Ok(height), Ok(count)) => Ok(
                                InlineEmoticon {
                                    id,
                                    unique,
                                    emoji,
                                    descript,
                                    url,
                                    width,
                                    height,
                                    count,
                                },
                            ),
                            (Err(e), _, _) => Err(e),
                            (_, Err(e), _) => Err(e),
                            (_, _, Err(e)) => Err(e),
                        }
                    },
                    (Err(e), _, _) => Err(e),
                    (_, Err(e), _) => Err(e),
                    (_, _, Err(e)) => Err(e),
                }
            },
            (Err(e), _) => Err(e),
            (_, Err(e)) => Err(e),
        }
    }

    /// Decodes an inline-emoticon object.
    pub fn from_node(n: &JsonNode) -> (r: Result<InlineEmoticon, CmdDeError>)
        ensures
            r == InlineEmoticon::spec_from_node(*n),
    {
        let id = match u64_member(n, "emoticon_id") {
            Ok(v) => v,
            Err(e) => {
                return Err(e);
            },
        };
        let unique = match str_member(n, "emoticon_unique") {
            Ok(s) => s,
            Err(e) => {
                return Err(e);
            },
        };
        let emoji = match str_member(n, "emoji") {
            Ok(s) => s,
            Err(e) => {
                return Err(e);
            },
        };
        let descript = match str_member(n, "descript") {
            Ok(s) => s,
            Err(e) => {
                return Err(e);
            },
        };
        let url = match str_member(n, "url") {
            Ok(s) => s,
            Err(e) => {
                return Err(e);
            },
        };
        let width = match u32_member(n, "width") {
            Ok(v) => v,
            Err(e) => {
                return Err(e);
            },
        };
        let height = match u32_member(n, "height") {
            Ok(v) => v,
            Err(e) => {
                return Err(e);
            },
        };
        let count = match usize_member(n, "count") {
            Ok(v) => v,
            Err(e) => {
                return Err(e);
            },
        };
        Ok(InlineEmoticon { id, unique, emoji, descript, url, width, height, count })
    }
}

/// The 64-bit integer member named `key`, demanded of an object.
pub open spec fn spec_u64_member(n: JsonNode, key: Seq<char>) -> Result<u64, CmdDeError> {
    match n {
        JsonNode::Obj(pairs) => match spec_member(pairs@, key) {
            Option::Some(m) => match m.spec_as_u64() {
                Option::Some(v) => Ok(v),
                Option::None => Err(CmdDeError::WrongType),
            },
            Option::None => Err(CmdDeError::Missing),
        },
        _ => Err(CmdDeError::WrongType),
    }
}

/// The machine-size integer member named `key`, demanded of an object.
pub open spec fn spec_usize_member(n: JsonNode, key: Seq<char>) -> Result<usize, CmdDeError> {
    match n {
        JsonNode::Obj(pairs) => match spec_member(pairs@, key) {
            Option::Some(m) => match m.spec_as_u64() {
                Option::Some(v) => if v <= usize::MAX {
                    Ok(v as usize)
                } else {
                    Err(CmdDeError::BadValue)
                },
                Option::None => Err(CmdDeError::WrongType),
            },
            Option::None => Err(CmdDeError::Missing),
        },
        _ => Err(CmdDeError::WrongType),
    }
}

/// Reads the 64-bit integer member named `key` of an object.
pub fn u64_member(n: &JsonNode, key: &str) -> (r: Result<u64, CmdDeError>)
    ensures
        r == spec_u64_member(*n, key@),
{
    let k = String::from_str(key);
    match n {
        JsonNode::Obj(_) => match n.member(&k) {
            Some(m) => match m.as_u64() {
                Some(v) => Ok(v),
                None => Err(CmdDeError::WrongType),
            },
            None => Err(CmdDeError::Missing),
        },
        _ => Err(CmdDeError::WrongType),
    }
}

/// Reads the machine-size integer member named `key` of an object.
pub fn usize_member(n: &JsonNode, key: &str) -> (r: Result<usize, CmdDeError>)
    ensures
        r == spec_usize_member(*n, key@),
{
    let k = String::from_str(key);
    match n {
        JsonNode::Obj(_) => match n.member(&k) {
            Some(m) => match m.as_u64() {
                Some(v) => if v <= usize::MAX as u64 {
                    Ok(v as usize)
                } else {
                    Err(CmdDeError::BadValue)
                },
                None => Err(CmdDeError::WrongType),
            },
            None => Err(CmdDeError::Missing),
        },
        _ => Err(CmdDeError::WrongType),
    }
}

/// What the members of the `emots` object decode to, in order.
pub open spec fn spec_emoticon_list(pairs: Seq<(String, JsonNode)>) -> Result<
    Seq<(String, InlineEmoticon)>,
    CmdDeError,
>
    decreases pairs.len(),
{
    if pairs.len() == 0 {
        Ok(Seq::empty())
    } else {
        match InlineEmoticon::spec_from_node(pairs[0].1) {
            Ok(e) => match spec_emoticon_list(pairs.drop_first()) {
                Ok(rest) => Ok(seq![(pairs[0].0, e)] + rest),
                Err(e2) => Err(e2),
            },
            Err(e2) => Err(e2),
        }
    }
}

/// What the extra object decodes to: the members of its `emots` object in
/// order, none when that member is null.
pub open spec fn spec_meta_extra(n: JsonNode) -> Result<
    Seq<(String, InlineEmoticon)>,
    CmdDeError,
> {
    match n {
        JsonNode::Obj(pairs) => match spec_member(pairs@, "emots"@) {
            Option::Some(JsonNode::Null) => Ok(Seq::empty()),
            Option::Some(JsonNode::Obj(emots)) => spec_emoticon_list(emots@),
            Option::Some(_) => Err(CmdDeError::WrongType),
            Option::None => Err(CmdDeError::Missing),
        },
        _ => Err(CmdDeError::WrongType),
    }
}

/// Decodes every member of an `emots` object, in order.
#[verifier::loop_isolation(false)]
fn emoticon_list(pairs: &Vec<(String, JsonNode)>) -> (r: Result<
    Vec<(String, InlineEmoticon)>,
    CmdDeError,
>)
    ensures
        match r {
            Ok(list) => spec_emoticon_list(pairs@) == Ok::<_, CmdDeError>(list@),
            Err(e) => spec_emoticon_list(pairs@) == Err::<Seq<(String, InlineEmoticon)>, _>(e),
        },
{
    let mut out: Vec<(String, InlineEmoticon)> = Vec::new();
    let mut i: usize = 0;
    assert(pairs@.skip(0) =~= pairs@);
    while i < pairs.len()
        invariant
            i <= pairs@.len(),
            spec_emoticon_list(pairs@) == match spec_emoticon_list(pairs@.skip(i as int)) {
                Ok(rest) => Ok::<_, CmdDeError>(out@ + rest),
                Err(e) => Err::<Seq<(String, InlineEmoticon)>, _>(e),
            },
        decreases pairs@.len() - i,
    {
        assert(pairs@.skip(i as int)[0] == pairs@[i as int]);
        assert(pairs@.skip(i as int).drop_first() =~= pairs@.skip(i + 1));
        let e = match InlineEmoticon::from_node(&pairs[i].1) {
            Ok(e) => e,
            Err(e2) => {
                return Err(e2);
            },
        };
        let k = pairs[i].0.clone();
        assert(k == pairs@[i as int].0);
        let ghost out0 = out@;
        out.push((k, e));
        proof {
            let si = pairs@.skip(i as int);
            assert(si[0].1 == pairs@[i as int].1);
            match spec_emoticon_list(pairs@.skip(i + 1)) {
                Ok(rest) => {
                    assert(spec_emoticon_list(si) == Ok::<_, CmdDeError>(
                        seq![(pairs@[i as int].0, e)] + rest,
                    ));
                    assert(out0 + (seq![(pairs@[i as int].0, e)] + rest) =~= out@ + rest);
                    assert(spec_emoticon_list(pairs@) == Ok::<_, CmdDeError>(out@ + rest));
                },
                Err(_) => {},
            }
        }
        i = i + 1;
    }
    assert(pairs@.skip(pairs@.len() as int) =~= Seq::<(String, JsonNode)>::empty());
    assert(out@ + Seq::<(String, InlineEmoticon)>::empty() =~= out@);
    Ok(out)
}

impl MetaExtra {
    /// Decodes the extra object: its `emots` member as the inline
    /// emoticons in document order; a null member means none.
    pub fn from_node(n: &JsonNode) -> (r: Result<MetaExtra, CmdDeError>)
        ensures
            match r {
                Ok(m) => spec_meta_extra(*n) == Ok::<_, CmdDeError>(m.emoticons@),
                Err(e) => spec_meta_extra(*n) == Err::<Seq<(String, InlineEmoticon)>, _>(e),
            },
    {
        let key = String::from_str("emots");
        match n {
            JsonNode::Obj(_) => match n.member(&key) {
                Some(JsonNode::Null) => {
                    let list: Vec<(String, InlineEmoticon)> = Vec::new();
                    assert(list@ =~= Seq::<(String, InlineEmoticon)>::empty());
                    Ok(MetaExtra { emoticons: list })
                },
                Some(m) => match m {
                    JsonNode::Obj(emots) => match emoticon_list(emots) {
                        Ok(list) => Ok(MetaExtra { emoticons: list }),
                        Err(e) => Err(e),
                    },
                    _ => Err(CmdDeError::WrongType),
                },
                None => Err(CmdDeError::Missing),
            },
            _ => Err(CmdDeError::WrongType),
        }
    }
}

} // verus!
