use plutus_core::cmds::{
    CmdDeError, Danmaku, DanmakuData, DanmakuMode, GuardLevel, InlineEmoticon, MetaExtra, Rank,
    RoomSilentTime, SilentType, UserToastType,
};
use plutus_core::info::OfficialRole;
use plutus_core::json::JsonNode;
use plutus_core::share::{code_from_i64, code_from_u64, FromCode};

#[test]
fn de_official_role_too_long() {
    assert!(code_from_i64::<OfficialRole>(i64::MIN).is_none());
    assert!(code_from_i64::<OfficialRole>(i64::MAX).is_none());
    assert!(code_from_u64::<OfficialRole>(u64::MAX).is_none());
    assert!(code_from_u64::<OfficialRole>(u64::from(u32::MAX)).is_none());
}

#[test]
fn de_official_role() {
    assert!(matches!(OfficialRole::from_code(0), OfficialRole::Not));
    assert!(matches!(OfficialRole::from_code(1), OfficialRole::Personal));
    assert!(matches!(OfficialRole::from_code(2), OfficialRole::Personal));
    assert!(matches!(OfficialRole::from_code(7), OfficialRole::Personal));
    assert!(matches!(OfficialRole::from_code(3), OfficialRole::Organization));
    assert!(matches!(OfficialRole::from_code(4), OfficialRole::Organization));
    assert!(matches!(OfficialRole::from_code(5), OfficialRole::Organization));
    assert!(matches!(OfficialRole::from_code(6), OfficialRole::Organization));
    assert!(matches!(OfficialRole::from_code(100), OfficialRole::Unknown(100)));
    assert!(matches!(OfficialRole::from_code(-100), OfficialRole::Unknown(-100)));
}

#[test]
fn de_room_silent_time() {
    let time = RoomSilentTime::from_i64(-1).unwrap();
    assert_eq!(RoomSilentTime::Once, time);
    let time = RoomSilentTime::from_i64(1679147517).unwrap();
    assert!(matches!(time, RoomSilentTime::Until(1679147517)));
}

#[test]
fn silent_time_out_of_calendar() {
    assert!(RoomSilentTime::from_i64(i64::MAX).is_none());
    assert!(RoomSilentTime::from_i64(i64::MIN).is_none());
}

#[test]
fn silent_types() {
    assert_eq!(SilentType::from_str("member"), SilentType::Member);
    assert_eq!(SilentType::from_str("medal"), SilentType::Medal);
    assert_eq!(SilentType::from_str("level"), SilentType::Level);
    assert_eq!(SilentType::from_str("unk123"), SilentType::Unknown);
}

#[test]
fn toast_and_guard_codes() {
    assert!(matches!(UserToastType::from_code(1), UserToastType::Buy));
    assert!(matches!(UserToastType::from_code(9), UserToastType::Unknown(9)));
    assert_eq!(GuardLevel::from_u64(3), Some(GuardLevel::Captain));
    assert_eq!(GuardLevel::from_u64(4), None);
    assert_eq!(DanmakuMode::from_u64(9), Some(DanmakuMode::Advanced));
    assert_eq!(DanmakuMode::from_u64(2), None);
}

fn sample_meta() -> JsonNode {
    JsonNode::Arr(vec![
        JsonNode::UInt(0),
        JsonNode::UInt(1),                          // mode: Normal
        JsonNode::UInt(25),                         // font size
        JsonNode::UInt(14893055),                   // color
        JsonNode::Int(1676986353),                  // send time
        JsonNode::UInt(0),
        JsonNode::UInt(0),
        JsonNode::Str("9e2e1d82".to_string()),      // sender checksum
        JsonNode::UInt(0),
        JsonNode::UInt(0),
        JsonNode::UInt(0),
        JsonNode::UInt(0),
        JsonNode::UInt(0),                          // not an emoticon
        JsonNode::Null,
        JsonNode::UInt(0),
        JsonNode::Obj(vec![(
            "extra".to_string(),
            JsonNode::Str("{\"emots\":null}".to_string()),
        )]),
    ])
}

fn sample_user() -> JsonNode {
    JsonNode::Arr(vec![
        JsonNode::UInt(12345),
        JsonNode::Str("viewer".to_string()),
        JsonNode::UInt(1),                          // admin
        JsonNode::UInt(0),                          // not year vip
        JsonNode::UInt(1),                          // month vip
        JsonNode::UInt(0),
        JsonNode::UInt(0),
        JsonNode::Str("#a1b2c3".to_string()),       // name color
    ])
}

fn sample_level() -> JsonNode {
    JsonNode::Arr(vec![
        JsonNode::UInt(21),
        JsonNode::UInt(0),
        JsonNode::UInt(0),
        JsonNode::Str(">50000".to_string()),
    ])
}

fn sample_medal() -> JsonNode {
    JsonNode::Arr(vec![
        JsonNode::UInt(23),                         // level
        JsonNode::Str("medal".to_string()),         // name
        JsonNode::Str("liver".to_string()),         // owner name
        JsonNode::UInt(42),                         // room
        JsonNode::UInt(0x112233),                   // color
        JsonNode::UInt(0),
        JsonNode::UInt(0),
        JsonNode::UInt(0x010203),                   // gradient 1
        JsonNode::UInt(0x040506),                   // gradient 2
        JsonNode::UInt(0x070809),                   // gradient 3
        JsonNode::UInt(3),                          // captain
        JsonNode::UInt(1),                          // lit
        JsonNode::UInt(777),                        // owner
    ])
}

#[test]
fn danmaku_record_decodes() {
    let info = JsonNode::Arr(vec![
        sample_meta(),
        JsonNode::Str("hello".to_string()),
        sample_user(),
        sample_medal(),
        sample_level(),
    ]);
    let data = DanmakuData::from_node(&info).unwrap();
    assert_eq!(data.content, "hello");
    assert!(matches!(data.metadata.mode, DanmakuMode::Normal));
    assert_eq!(data.metadata.font_size, 25);
    let color = data.metadata.color.unwrap();
    assert_eq!((color.red, color.green, color.blue), (0xE3, 0x3F, 0xFF));
    assert_eq!(data.metadata.send_time, Some(1676986353));
    // 9e 2e 1d 82 read as little-endian 32 bits
    assert_eq!(data.metadata.uid_crc32, Some(0x821D2E9E));
    assert!(!data.metadata.is_emoticon);
    assert!(data.metadata.emoticon.is_none());
    assert_eq!(data.metadata.extra_raw, "{\"emots\":null}");
    assert_eq!(data.user.uid, 12345);
    assert_eq!(data.user.username, "viewer");
    assert!(data.user.is_admin);
    assert!(data.user.is_month_vip);
    assert!(!data.user.is_year_vip);
    let nc = data.user.name_color.unwrap();
    assert_eq!((nc.red, nc.green, nc.blue), (0xA1, 0xB2, 0xC3));
    let medal = data.medal.unwrap();
    assert_eq!(medal.level, 23);
    assert_eq!(medal.name, "medal");
    assert!(matches!(medal.guard_level, GuardLevel::Captain));
    assert!(medal.is_active);
    assert_eq!(medal.liver_uid, 777);
    assert_eq!(data.level.level, 21);
    assert_eq!(data.level.rank, Rank::Text(">50000".to_string()));
}

#[test]
fn danmaku_empty_medal_means_none() {
    let info = JsonNode::Arr(vec![
        sample_meta(),
        JsonNode::Str("hi".to_string()),
        sample_user(),
        JsonNode::Arr(vec![]),
        sample_level(),
    ]);
    let data = DanmakuData::from_node(&info).unwrap();
    assert!(data.medal.is_none());
    let danmaku = Danmaku { v2: String::new(), raw_info: info };
    assert!(danmaku.data().is_ok());
}

#[test]
fn danmaku_record_errors() {
    assert!(matches!(
        DanmakuData::from_node(&JsonNode::Str("nope".to_string())),
        Err(CmdDeError::WrongType)
    ));
    assert!(matches!(
        DanmakuData::from_node(&JsonNode::Arr(vec![JsonNode::Null])),
        Err(CmdDeError::Missing)
    ));
    // a metadata array with an unknown display mode
    let mut meta_elems = match sample_meta() {
        JsonNode::Arr(v) => v,
        _ => unreachable!(),
    };
    meta_elems[1] = JsonNode::UInt(2);
    let info = JsonNode::Arr(vec![
        JsonNode::Arr(meta_elems),
        JsonNode::Str("hi".to_string()),
        sample_user(),
        JsonNode::Arr(vec![]),
        sample_level(),
    ]);
    assert!(matches!(DanmakuData::from_node(&info), Err(CmdDeError::BadValue)));
}

#[test]
fn meta_extra_decodes() {
    let emoticon = JsonNode::Obj(vec![
        ("emoticon_id".to_string(), JsonNode::UInt(9)),
        ("emoticon_unique".to_string(), JsonNode::Str("upower_x".to_string())),
        ("emoji".to_string(), JsonNode::Str("[x]".to_string())),
        ("descript".to_string(), JsonNode::Str("desc".to_string())),
        ("url".to_string(), JsonNode::Str("https://i.example/x.png".to_string())),
        ("width".to_string(), JsonNode::UInt(60)),
        ("height".to_string(), JsonNode::UInt(60)),
        ("count".to_string(), JsonNode::UInt(2)),
    ]);
    let extra = JsonNode::Obj(vec![(
        "emots".to_string(),
        JsonNode::Obj(vec![("[x]".to_string(), emoticon)]),
    )]);
    let m = MetaExtra::from_node(&extra).unwrap();
    assert_eq!(m.emoticons.len(), 1);
    assert_eq!(m.emoticons[0].0, "[x]");
    assert_eq!(
        m.emoticons[0].1,
        InlineEmoticon {
            id: 9,
            unique: "upower_x".to_string(),
            emoji: "[x]".to_string(),
            descript: "desc".to_string(),
            url: "https://i.example/x.png".to_string(),
            width: 60,
            height: 60,
            count: 2,
        }
    );
    let null_extra = JsonNode::Obj(vec![("emots".to_string(), JsonNode::Null)]);
    assert_eq!(MetaExtra::from_node(&null_extra).unwrap().emoticons.len(), 0);
    let missing = JsonNode::Obj(vec![]);
    assert!(matches!(MetaExtra::from_node(&missing), Err(CmdDeError::Missing)));
}
