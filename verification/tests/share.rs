use plutus_core::share::{ColorFromU32, RgbColor};

#[test]
fn test() {
    let color = RgbColor::from_u32(14893055);
    println!("{:?}", color);
}

#[test]
fn rgb_from_u32_channels() {
    let color = RgbColor::from_u32(14893055);
    assert_eq!(color.red, 0xE3);
    assert_eq!(color.green, 0x3F);
    assert_eq!(color.blue, 0xFF);
}
