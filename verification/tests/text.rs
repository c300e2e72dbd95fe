use dtiw385::text::{push_decimal, str_eq};
use dtiw385::Decoders;

fn decimal(n: u32) -> String {
    let mut s = String::new();
    push_decimal(&mut s, n);
    s
}

#[test]
fn decimal_text() {
    assert_eq!(decimal(0), "0");
    assert_eq!(decimal(7), "7");
    assert_eq!(decimal(10), "10");
    assert_eq!(decimal(352), "352");
    assert_eq!(decimal(u32::MAX), "4294967295");
    let mut s = String::from("key=");
    push_decimal(&mut s, 116);
    assert_eq!(s, "key=116");
}

#[test]
fn decimal_text_reads_back() {
    for n in [0u32, 1, 9, 10, 99, 100, 65535, 1_000_000, u32::MAX] {
        let text = decimal(n);
        assert_eq!(text.parse::<u32>().unwrap(), n);
        assert!(text.len() == 1 || !text.starts_with('0'));
    }
}

#[test]
fn string_equality() {
    assert!(str_eq("0", "0"));
    assert!(str_eq("", ""));
    assert!(!str_eq("0", "00"));
    assert!(!str_eq("ok", "Ok"));
    assert!(str_eq("Décodeur", "Décodeur"));
}

#[test]
fn distinct_commands_have_distinct_urls() {
    let decoder = Decoders::connect([192, 168, 1, 10], 8080);
    let urls = [
        decoder.build_url(1, 11, 0),
        decoder.build_url(11, 1, 0),
        decoder.build_url(1, 1, 10),
        decoder.build_url(1, 110, 0),
        decoder.build_url(11, 10, 0),
        decoder.press_url(352),
        decoder.hold_url(352),
        decoder.release_url(352),
    ];
    for i in 0..urls.len() {
        for j in 0..urls.len() {
            assert_eq!(i == j, urls[i] == urls[j]);
        }
    }
}
