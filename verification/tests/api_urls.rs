use plutus_core::api;

#[test]
fn mod_test() {
    assert_eq!(
        "https://passport.bilibili.com/qrcode/getLoginUrl",
        api::login_qr_get().as_str()
    );
    assert_eq!("https://www.bilibili.com/", api::api_www().as_str());
}

#[test]
fn endpoint_paths() {
    assert_eq!(
        "https://api.bilibili.com/x/web-interface/nav",
        api::nav_info().as_str()
    );
    assert_eq!(
        "https://api.live.bilibili.com/xlive/web-room/v1/index/getDanmuInfo",
        api::danmaku_info().as_str()
    );
    assert_eq!(
        "https://api.live.bilibili.com/room/v1/Room/room_init",
        api::room_init().as_str()
    );
}
