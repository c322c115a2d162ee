//! Small wire codes and colors shared across the data model.
//!
//! The service writes enums as small integers with a catch-all for values
//! it may add, and colors either as one integer or as a hex string with an
//! optional `#`.

use vstd::prelude::*;
use vstd::string::StringSliceAdditionalSpecFns;

verus! {

/// A type the wire writes as an `i32` code, with a catch-all variant for
/// codes the service may add.
pub trait FromCode: Sized {
    /// The variant a wire code maps to.
    spec fn spec_from_code(code: i32) -> Self;

    /// Maps a wire code to its variant.
    fn from_code(code: i32) -> (r: Self)
        ensures
            r == Self::spec_from_code(code),
    ;
}

/// Maps a signed 64-bit wire value through `FromCode`, as the decoder
/// does: values outside the `i32` range are rejected.
pub fn code_from_i64<T: FromCode>(v: i64) -> (r: Option<T>)
    ensures
        i32::MIN <= v <= i32::MAX ==> r == Some(T::spec_from_code(v as i32)),
        !(i32::MIN <= v <= i32::MAX) ==> r is None,
{
    if i32::MIN as i64 <= v && v <= i32::MAX as i64 {
        Some(T::from_code(v as i32))
    } else {
        None
    }
}

/// Maps an unsigned 64-bit wire value through `FromCode`, as the decoder
/// does: values above `i32::MAX` are rejected.
pub fn code_from_u64<T: FromCode>(v: u64) -> (r: Option<T>)
    ensures
        v <= i32::MAX ==> r == Some(T::spec_from_code(v as i32)),
        v > i32::MAX ==> r is None,
{
    if v <= i32::MAX as u64 {
        Some(T::from_code(v as i32))
    } else {
        None
    }
}

/// Kind of a user's VIP standing.
#[derive(Clone, Copy, Debug, PartialEq, Eq, Structural)]
pub enum VipType {
    /// A code this library does not know.
    Unknown(i32),
    /// Not a VIP; wire value 1.
    NotVip,
    /// Monthly; wire value 2.
    Month,
    /// Yearly; wire value 3.
    Year,
}

impl FromCode for VipType {
    open spec fn spec_from_code(code: i32) -> VipType {
        if code == 1 {
            VipType::NotVip
        } else if code == 2 {
            VipType::Month
        } else if code == 3 {
            VipType::Year
        } else {
            VipType::Unknown(code)
        }
    }

    fn from_code(code: i32) -> (r: VipType) {
        match code {
            1 => VipType::NotVip,
            2 => VipType::Month,
            3 => VipType::Year,
            unk => VipType::Unknown(unk),
        }
    }
}

/// Standing of a user's VIP account.
#[derive(Clone, Copy, Debug, PartialEq, Eq, Structural)]
pub enum VipStatus {
    /// A code this library does not know.
    Unknown(i32),
    /// In good standing; wire value 1.
    Normal,
    /// Flagged for frequent IP changes; wire value 2.
    IpChangeFrequent,
    /// Locked for risk; wire value 3.
    RiskLocked,
}

impl FromCode for VipStatus {
    open spec fn spec_from_code(code: i32) -> VipStatus {
        if code == 1 {
            VipStatus::Normal
        } else if code == 2 {
            VipStatus::IpChangeFrequent
        } else if code == 3 {
            VipStatus::RiskLocked
        } else {
            VipStatus::Unknown(code)
        }
    }

    fn from_code(code: i32) -> (r: VipStatus) {
        match code {
            1 => VipStatus::Normal,
            2 => VipStatus::IpChangeFrequent,
            3 => VipStatus::RiskLocked,
            unk => VipStatus::Unknown(unk),
        }
    }
}

/// A color built from one packed integer.
pub trait ColorFromU32: Sized {
    /// The color a packed value maps to.
    spec fn spec_from_u32(num: u32) -> Self;

    /// Unpacks a color.
    fn from_u32(num: u32) -> (r: Self)
        ensures
            r == Self::spec_from_u32(num),
    ;
}

/// A color built from a packed integer that arrived as 64 bits.
pub trait ColorFromU64: Sized {
    /// The color a 64-bit value maps to, when it fits 32 bits.
    spec fn spec_from_u64(num: u64) -> Option<Self>;

    /// Unpacks a color when the value fits 32 bits.
    fn from_u64(num: u64) -> (r: Option<Self>)
        ensures
            r == Self::spec_from_u64(num),
    ;
}

impl<T: ColorFromU32> ColorFromU64 for T {
    open spec fn spec_from_u64(num: u64) -> Option<T> {
        if num <= u32::MAX {
            Some(T::spec_from_u32(num as u32))
        } else {
            None
        }
    }

    fn from_u64(num: u64) -> (r: Option<T>) {
        if num <= u32::MAX as u64 {
            Some(T::from_u32(num as u32))
        } else {
            None
        }
    }
}

/// Value of one hex digit, upper or lower case.
pub open spec fn spec_hex_val(b: u8) -> Option<u8> {
    if 48 <= b <= 57 {
        Some((b - 48) as u8)
    } else if 97 <= b <= 102 {
        Some((b - 87) as u8)
    } else if 65 <= b <= 70 {
        Some((b - 55) as u8)
    } else {
        None
    }
}

/// Value of one hex digit, upper or lower case.
pub fn hex_val(b: u8) -> (r: Option<u8>)
    ensures
        r == spec_hex_val(b),
{
    if 48 <= b && b <= 57 {
        Some(b - 48)
    } else if 97 <= b && b <= 102 {
        Some(b - 87)
    } else if 65 <= b && b <= 70 {
        Some(b - 55)
    } else {
        None
    }
}

/// The bytes a string of hex digit pairs decodes to; `None` on an odd
/// length or a byte that is no hex digit.
pub open spec fn spec_hex_bytes(s: Seq<u8>) -> Option<Seq<u8>>
    decreases s.len(),
{
    if s.len() == 0 {
        Some(Seq::empty())
    } else if s.len() == 1 {
        None
    } else {
        match (spec_hex_val(s[0]), spec_hex_val(s[1])) {
            (Some(hi), Some(lo)) => match spec_hex_bytes(s.skip(2)) {
                Some(rest) => Some(seq![(hi * 16 + lo) as u8] + rest),
                None => None,
            },
            _ => None,
        }
    }
}

/// Decodes a string of hex digit pairs into bytes.
#[verifier::loop_isolation(false)]
pub fn hex_bytes(s: &[u8]) -> (r: Option<Vec<u8>>)
    ensures
        match r {
            Some(v) => spec_hex_bytes(s@) == Some(v@),
            None => spec_hex_bytes(s@) is None,
        },
{
    let mut out: Vec<u8> = Vec::new();
    let mut i: usize = 0;
    assert(s@.skip(0) =~= s@);
    while i < s.len()
        invariant
            i <= s@.len(),
            spec_hex_bytes(s@) == match spec_hex_bytes(s@.skip(i as int)) {
                Some(rest) => Some(out@ + rest),
                None => Option::<Seq<u8>>::None,
            },
        decreases s@.len() - i,
    {
        let ghost rem = s@.skip(i as int);
        if s.len() - i == 1 {
            return None;
        }
        assert(rem[0] == s@[i as int] && rem[1] == s@[i + 1]);
        let hi = match hex_val(s[i]) {
            Some(v) => v,
            None => {
                return None;
            },
        };
        let lo = match hex_val(s[i + 1]) {
            Some(v) => v,
            None => {
                return None;
            },
        };
        out.push(hi * 16 + lo);
        proof {
            assert(rem.skip(2) =~= s@.skip(i + 2));
            match spec_hex_bytes(s@.skip(i + 2)) {
                Some(rest) => {
                    assert(out@.drop_last() + (seq![(hi * 16 + lo) as u8] + rest) =~= out@
                        + rest);
                },
                None => {},
            }
        }
        i = i + 2;
    }
    assert(s@.skip(s@.len() as int) =~= Seq::<u8>::empty());
    Some(out)
}

/// An opaque-background color.
#[derive(Clone, Copy, Debug, PartialEq, Eq, Structural)]
pub struct RgbColor {
    /// Red channel.
    pub red: u8,
    /// Green channel.
    pub green: u8,
    /// Blue channel.
    pub blue: u8,
}

impl ColorFromU32 for RgbColor {
    open spec fn spec_from_u32(num: u32) -> RgbColor {
        RgbColor {
            red: ((num & 0xFF0000) >> 16) as u8,
            green: ((num & 0x00FF00) >> 8) as u8,
            blue: (num & 0x0000FF) as u8,
        }
    }

    fn from_u32(num: u32) -> (r: RgbColor) {
        assert((num & 0xFF0000) >> 16 <= 0xFF) by (bit_vector);
        assert((num & 0x00FF00) >> 8 <= 0xFF) by (bit_vector);
        assert(num & 0x0000FF <= 0xFF) by (bit_vector);
        RgbColor {
            red: ((num & 0xFF0000) >> 16) as u8,
            green: ((num & 0x00FF00) >> 8) as u8,
            blue: (num & 0x0000FF) as u8,
        }
    }
}

/// A color with an alpha channel.
#[derive(Clone, Copy, Debug, PartialEq, Eq, Structural)]
pub struct RgbaColor {
    /// Red channel.
    pub red: u8,
    /// Green channel.
    pub green: u8,
    /// Blue channel.
    pub blue: u8,
    /// Alpha channel.
    pub alpha: u8,
}

impl ColorFromU32 for RgbaColor {
    open spec fn spec_from_u32(num: u32) -> RgbaColor {
        RgbaColor {
            red: ((num & 0xFF000000) >> 24) as u8,
            green: ((num & 0x00FF0000) >> 16) as u8,
            blue: ((num & 0x0000FF00) >> 8) as u8,
            alpha: (num & 0x000000FF) as u8,
        }
    }

    fn from_u32(num: u32) -> (r: RgbaColor) {
        assert((num & 0xFF000000) >> 24 <= 0xFF) by (bit_vector);
        assert((num & 0x00FF0000) >> 16 <= 0xFF) by (bit_vector);
        assert((num & 0x0000FF00) >> 8 <= 0xFF) by (bit_vector);
        assert(num & 0x000000FF <= 0xFF) by (bit_vector);
        RgbaColor {
            red: ((num & 0xFF000000) >> 24) as u8,
            green: ((num & 0x00FF0000) >> 16) as u8,
            blue: ((num & 0x0000FF00) >> 8) as u8,
            alpha: (num & 0x000000FF) as u8,
        }
    }
}

/// The input with one leading `#` removed, as the hex color forms allow.
pub open spec fn spec_strip_hash(s: Seq<u8>) -> Seq<u8> {
    if s.len() > 0 && s[0] == 35 {
        s.drop_first()
    } else {
        s
    }
}

/// The color a hex string maps to: after an optional `#`, exactly six hex
/// digits. The empty string maps to nothing.
pub open spec fn spec_rgb_from_hex(s: Seq<u8>) -> Option<RgbColor> {
    if s.len() == 0 {
        None
    } else {
        match spec_hex_bytes(spec_strip_hash(s)) {
            Some(b) => if b.len() == 3 {
                Some(RgbColor { red: b[0], green: b[1], blue: b[2] })
            } else {
                None
            },
            None => None,
        }
    }
}

/// The color a hex string with alpha maps to: after an optional `#`,
/// exactly eight hex digits. The empty string maps to nothing.
pub open spec fn spec_rgba_from_hex(s: Seq<u8>) -> Option<RgbaColor> {
    if s.len() == 0 {
        None
    } else {
        match spec_hex_bytes(spec_strip_hash(s)) {
            Some(b) => if b.len() == 4 {
                Some(RgbaColor { red: b[0], green: b[1], blue: b[2], alpha: b[3] })
            } else {
                None
            },
            None => None,
        }
    }
}

/// A color parsed from a hex string.
pub trait ColorFromHex: Sized {
    /// The color the string maps to, if it is well-formed.
    spec fn spec_from_str(s: &str) -> Option<Self>;

    /// Parses the hex form.
    fn from_str(num: &str) -> (r: Option<Self>)
        ensures
            r == Self::spec_from_str(num),
    ;
}

/// Splits off the optional leading `#` of a hex color.
fn strip_hash<'a>(b: &'a [u8]) -> (r: &'a [u8])
    ensures
        r@ == spec_strip_hash(b@),
{
    if b.len() > 0 && b[0] == 35 {
        let (_, rest) = b.split_at(1);
        assert(rest@ =~= b@.drop_first());
        rest
    } else {
        b
    }
}

impl ColorFromHex for RgbColor {
    open spec fn spec_from_str(s: &str) -> Option<RgbColor> {
        spec_rgb_from_hex(s.spec_bytes())
    }

    fn from_str(num: &str) -> (r: Option<RgbColor>) {
        let b = num.as_bytes();
        if b.len() == 0 {
            return None;
        }
        match hex_bytes(strip_hash(b)) {
            Some(v) => if v.len() == 3 {
                Some(RgbColor { red: v[0], green: v[1], blue: v[2] })
            } else {
                None
            },
            None => None,
        }
    }
}

impl ColorFromHex for RgbaColor {
    open spec fn spec_from_str(s: &str) -> Option<RgbaColor> {
        spec_rgba_from_hex(s.spec_bytes())
    }

    fn from_str(num: &str) -> (r: Option<RgbaColor>) {
        let b = num.as_bytes();
        if b.len() == 0 {
            return None;
        }
        match hex_bytes(strip_hash(b)) {
            Some(v) => if v.len() == 4 {
                Some(RgbaColor { red: v[0], green: v[1], blue: v[2], alpha: v[3] })
            } else {
                None
            },
            None => None,
        }
    }
}

/// Why a hex color string was rejected.
#[derive(Clone, Copy, Debug, PartialEq, Eq, Structural)]
pub enum ColorDeError {
    /// The string was empty.
    Empty,
    /// The digits were not the expected count of well-formed hex digits:
    /// expected so many, got so many.
    InvalidStringLength(usize, usize),
}

impl RgbColor {
    /// Parses the hex form, reporting why an input was rejected: an empty
    /// string, or anything that is not six hex digits after the optional
    /// `#`.
    pub fn from_hex(num: &str) -> (r: Result<RgbColor, ColorDeError>)
        ensures
            match r {
                Ok(c) => spec_rgb_from_hex(num.spec_bytes()) == Some(c),
                Err(e) => spec_rgb_from_hex(num.spec_bytes()) is None && (e
                    matches ColorDeError::Empty ==> num.spec_bytes().len() == 0) && (e matches
                    ColorDeError::InvalidStringLength(want, got) ==> want == 6 && got
                    == spec_strip_hash(num.spec_bytes()).len() && num.spec_bytes().len() > 0),
            },
    {
        let b = num.as_bytes();
        if b.len() == 0 {
            return Err(ColorDeError::Empty);
        }
        let t = strip_hash(b);
        match hex_bytes(t) {
            Some(v) => if v.len() == 3 {
                Ok(RgbColor { red: v[0], green: v[1], blue: v[2] })
            } else {
                Err(ColorDeError::InvalidStringLength(6, t.len()))
            },
            None => Err(ColorDeError::InvalidStringLength(6, t.len())),
        }
    }
}

impl RgbaColor {
    /// Parses the hex form, reporting why an input was rejected: an empty
    /// string, or anything that is not eight hex digits after the
    /// optional `#`.
    pub fn from_hex(num: &str) -> (r: Result<RgbaColor, ColorDeError>)
        ensures
            match r {
                Ok(c) => spec_rgba_from_hex(num.spec_bytes()) == Some(c),
                Err(e) => spec_rgba_from_hex(num.spec_bytes()) is None && (e
                    matches ColorDeError::Empty ==> num.spec_bytes().len() == 0) && (e matches
                    ColorDeError::InvalidStringLength(want, got) ==> want == 8 && got
                    == spec_strip_hash(num.spec_bytes()).len() && num.spec_bytes().len() > 0),
            },
    {
        let b = num.as_bytes();
        if b.len() == 0 {
            return Err(ColorDeError::Empty);
        }
        let t = strip_hash(b);
        match hex_bytes(t) {
            Some(v) => if v.len() == 4 {
                Ok(RgbaColor { red: v[0], green: v[1], blue: v[2], alpha: v[3] })
            } else {
                Err(ColorDeError::InvalidStringLength(8, t.len()))
            },
            None => Err(ColorDeError::InvalidStringLength(8, t.len())),
        }
    }
}

/// The wire form of a boolean written as the string `"0"` or `"1"`.
pub struct BoolFromIntString;

/// The boolean a `"0"`-or-`"1"` string maps to.
pub open spec fn spec_bool_from_int_string(s: Seq<u8>) -> Option<bool> {
    if s == seq![48u8] {
        Some(false)
    } else if s == seq![49u8] {
        Some(true)
    } else {
        None
    }
}

impl BoolFromIntString {
    /// Parses the string form: `"0"` is false, `"1"` is true, anything
    /// else is rejected.
    pub fn parse(s: &str) -> (r: Option<bool>)
        ensures
            r == spec_bool_from_int_string(s.spec_bytes()),
    {
        let b = s.as_bytes();
        if b.len() == 1 && b[0] == 48 {
            assert(b@ =~= seq![48u8]);
            Some(false)
        } else if b.len() == 1 && b[0] == 49 {
            assert(b@ =~= seq![49u8]);
            Some(true)
        } else {
            assert(b@.len() == 1 ==> (b@ =~= seq![b@[0]]));
            None
        }
    }
}

} // verus!
