//! The service endpoints, as the texts a client resolves them from.
//!
//! Base URLs carry the trailing slash their normalized form has; endpoint
//! URLs carry their paths.

use vstd::prelude::*;

verus! {

/// The main API host.
pub fn api_main() -> (s: String)
    ensures
        s@ == "https://api.bilibili.com/"@,
{
    String::from_str("https://api.bilibili.com/")
}

/// The main site.
pub fn api_www() -> (s: String)
    ensures
        s@ == "https://www.bilibili.com/"@,
{
    String::from_str("https://www.bilibili.com/")
}

/// The live site.
pub fn api_live() -> (s: String)
    ensures
        s@ == "https://live.bilibili.com/"@,
{
    String::from_str("https://live.bilibili.com/")
}

/// The live API host.
pub fn api_live_api() -> (s: String)
    ensures
        s@ == "https://api.live.bilibili.com/"@,
{
    String::from_str("https://api.live.bilibili.com/")
}

/// The passport host.
pub fn api_passport() -> (s: String)
    ensures
        s@ == "https://passport.bilibili.com/"@,
{
    String::from_str("https://passport.bilibili.com/")
}

/// Where a sign-in QR code is asked for.
pub fn login_qr_get() -> (s: String)
    ensures
        s@ == "https://passport.bilibili.com/qrcode/getLoginUrl"@,
{
    String::from_str("https://passport.bilibili.com/qrcode/getLoginUrl")
}

/// Where a QR sign-in is polled.
pub fn login_qr() -> (s: String)
    ensures
        s@ == "https://passport.bilibili.com/qrcode/getLoginInfo"@,
{
    String::from_str("https://passport.bilibili.com/qrcode/getLoginInfo")
}

/// Where the signed-in account is read.
pub fn nav_info() -> (s: String)
    ensures
        s@ == "https://api.bilibili.com/x/web-interface/nav"@,
{
    String::from_str("https://api.bilibili.com/x/web-interface/nav")
}

/// Where the anti-bot fingerprint is read.
pub fn spi() -> (s: String)
    ensures
        s@ == "https://api.bilibili.com/x/frontend/finger/spi"@,
{
    String::from_str("https://api.bilibili.com/x/frontend/finger/spi")
}

/// Where a user is resolved to their room.
pub fn uid_to_room_id() -> (s: String)
    ensures
        s@ == "https://api.live.bilibili.com/room/v2/Room/room_id_by_uid"@,
{
    String::from_str("https://api.live.bilibili.com/room/v2/Room/room_id_by_uid")
}

/// Where a room's base data is read.
pub fn room_init() -> (s: String)
    ensures
        s@ == "https://api.live.bilibili.com/room/v1/Room/room_init"@,
{
    String::from_str("https://api.live.bilibili.com/room/v1/Room/room_init")
}

/// Where a room's danmaku servers are read.
pub fn danmaku_info() -> (s: String)
    ensures
        s@ == "https://api.live.bilibili.com/xlive/web-room/v1/index/getDanmuInfo"@,
{
    String::from_str("https://api.live.bilibili.com/xlive/web-room/v1/index/getDanmuInfo")
}

} // verus!
