use plutus_core::share::{
    BoolFromIntString, ColorFromHex, ColorFromU32, ColorFromU64, ColorDeError, RgbColor,
    RgbaColor,
};

#[test]
fn share_test() {
    let color = RgbColor::from_u32(14893055);
    println!("{:?}", color);
}

#[test]
fn bool_from_int_string() {
    let de = BoolFromIntString::parse("1").unwrap();
    assert!(de);
    assert_eq!(BoolFromIntString::parse("0"), Some(false));
    assert_eq!(BoolFromIntString::parse("2"), None);
    assert_eq!(BoolFromIntString::parse(""), None);
    assert_eq!(BoolFromIntString::parse("01"), None);
}

#[test]
fn rgb_from_hex_forms() {
    let c = RgbColor::from_str("#e33fff").unwrap();
    assert_eq!((c.red, c.green, c.blue), (0xE3, 0x3F, 0xFF));
    let c = RgbColor::from_str("E33FFF").unwrap();
    assert_eq!((c.red, c.green, c.blue), (0xE3, 0x3F, 0xFF));
    assert!(RgbColor::from_str("").is_none());
    assert!(RgbColor::from_str("#e33ff").is_none());
    assert!(RgbColor::from_str("e33ffg").is_none());
}

#[test]
fn rgba_from_hex_forms() {
    let c = RgbaColor::from_str("#e33fff80").unwrap();
    assert_eq!((c.red, c.green, c.blue, c.alpha), (0xE3, 0x3F, 0xFF, 0x80));
    assert!(RgbaColor::from_str("e33fff").is_none());
}

#[test]
fn rgb_from_hex_errors() {
    assert_eq!(RgbColor::from_hex(""), Err(ColorDeError::Empty));
    assert_eq!(RgbColor::from_hex("#abc"), Err(ColorDeError::InvalidStringLength(6, 3)));
    let c = RgbColor::from_hex("#a1b2c3").unwrap();
    assert_eq!((c.red, c.green, c.blue), (0xA1, 0xB2, 0xC3));
    assert_eq!(RgbaColor::from_hex("#abcdef"), Err(ColorDeError::InvalidStringLength(8, 6)));
}

#[test]
fn rgba_from_u64_range() {
    assert!(RgbaColor::from_u64(u64::from(u32::MAX) + 1).is_none());
    let c = RgbaColor::from_u64(0x11223344).unwrap();
    assert_eq!((c.red, c.green, c.blue, c.alpha), (0x11, 0x22, 0x33, 0x44));
}
