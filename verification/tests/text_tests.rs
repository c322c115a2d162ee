use plutus_core::json::{push_decimal, push_json_string};
use plutus_core::live::{UrlError, WssHost};
use plutus_core::resp::{page_count, AppCode, Cursor, Resp};

fn host(name: &str, wss_port: u16) -> WssHost {
    WssHost { host: name.to_string(), port: 2243, wss_port, ws_port: 2244 }
}

#[test]
fn wss_url_text() {
    let h = host("broadcastlv.example.com", 2245);
    assert_eq!(h.url_bytes(), b"wss://broadcastlv.example.com:2245/sub".to_vec());
    let url = h.to_url().unwrap();
    assert_eq!(url.as_str(), "wss://broadcastlv.example.com:2245/sub");
    assert_eq!(url.scheme(), "wss");
    assert_eq!(url.path(), "/sub");
    // the url crate normalizes away the default port of the scheme
    let h = host("broadcastlv.example.com", 443);
    let url = h.to_url().unwrap();
    assert_eq!(url.as_str(), "wss://broadcastlv.example.com/sub");
}

#[test]
fn wss_url_rejected() {
    let h = host("bad host name", 443);
    assert_eq!(h.to_url().unwrap_err(), UrlError::Rejected);
}

#[test]
fn decimal_digits() {
    let mut out: Vec<u8> = Vec::new();
    push_decimal(&mut out, 0);
    assert_eq!(out, b"0".to_vec());
    let mut out: Vec<u8> = Vec::new();
    push_decimal(&mut out, 1234567890);
    assert_eq!(out, b"1234567890".to_vec());
    let mut out: Vec<u8> = Vec::new();
    push_decimal(&mut out, u64::MAX);
    assert_eq!(out, b"18446744073709551615".to_vec());
}

#[test]
fn json_string_escapes() {
    let mut out: Vec<u8> = Vec::new();
    push_json_string(&mut out, b"a\"b\\c\nd\x01");
    assert_eq!(out, b"\"a\\\"b\\\\c\\nd\\u0001\"".to_vec());
}

#[test]
fn paging_rules() {
    assert_eq!(page_count(0, 20), 0);
    assert_eq!(page_count(1, 20), 1);
    assert_eq!(page_count(20, 20), 1);
    assert_eq!(page_count(21, 20), 2);
    let c = Cursor::default();
    assert_eq!((c.page, c.size), (1, 20));
    assert_eq!(c.offset(), 0);
    let c = Cursor { page: 3, size: 500 };
    assert_eq!(c.offset(), 1000);
    assert!(c.in_range(3));
    assert!(!c.in_range(2));
    assert!(!Cursor { page: 1, size: 1001 }.in_range(5));
    assert!(Cursor { page: 9, size: 9 }.in_range(0));
}

#[test]
fn response_envelopes() {
    let ok: Resp<u64> = Resp::new_success(7);
    assert_eq!(ok.code, AppCode(0));
    assert_eq!(ok.message, "ok");
    assert_eq!(ok.data, Some(7));
    let bad: Resp<u64> = Resp::new_failure(AppCode::invalid_arguments(), "Invalid cursor".to_string());
    assert_eq!(bad.code, AppCode(510));
    assert_eq!(bad.message, "Invalid cursor");
    assert_eq!(bad.data, None);
}
