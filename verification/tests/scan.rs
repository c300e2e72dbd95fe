use dtiw385::addr::{ip_to_u32, u32_to_ip, Address};
use dtiw385::{Decoders, DEFAULT_CLIENT_TIMEOUT_MS, DEFAULT_CONCURRENCY};

fn pair(a: Address) -> ([u8; 4], u16) {
    (a.ip(), a.port())
}

#[test]
fn ip_numbers_are_big_endian() {
    assert_eq!(ip_to_u32([192, 168, 1, 10]), 0xC0A8010A);
    assert_eq!(ip_to_u32([0, 0, 0, 0]), 0);
    assert_eq!(ip_to_u32([255, 255, 255, 255]), u32::MAX);
    assert_eq!(u32_to_ip(0xC0A8010A), [192, 168, 1, 10]);
    assert_eq!(u32_to_ip(u32::MAX), [255, 255, 255, 255]);
    assert_eq!(u32_to_ip(ip_to_u32([10, 20, 30, 40])), [10, 20, 30, 40]);
}

#[test]
fn address_text() {
    let a = Address::new([192, 168, 1, 254], 65535);
    assert_eq!(a.to_string(), "192.168.1.254:65535");
    assert_eq!(a.ip_string(), "192.168.1.254");
    assert_eq!(Address::new([0, 10, 100, 9], 0).to_string(), "0.10.100.9:0");
}

#[test]
fn search_defaults() {
    let search = Decoders::search([192, 168, 1, 1]..=[192, 168, 1, 254], 8080..=8080);
    assert_eq!(search.timeout(), DEFAULT_CLIENT_TIMEOUT_MS);
    assert_eq!(search.concurrency(), DEFAULT_CONCURRENCY);
    let search = search.with_concurrency(50).with_timeout(500);
    assert_eq!(search.concurrency(), 50);
    assert_eq!(search.timeout(), 500);
    assert_eq!(search.target_count(), 254);
}

#[test]
fn subnet_scan_visits_every_host_in_order() {
    let search = Decoders::search([192, 168, 1, 1]..=[192, 168, 1, 254], 8080..=8080);
    assert_eq!(search.target_count(), 254);
    assert_eq!(pair(search.target(0)), ([192, 168, 1, 1], 8080));
    assert_eq!(pair(search.target(9)), ([192, 168, 1, 10], 8080));
    assert_eq!(pair(search.target(253)), ([192, 168, 1, 254], 8080));
}

#[test]
fn scan_walks_ports_within_each_address() {
    let search = Decoders::search([10, 0, 0, 255]..=[10, 0, 1, 0], 8080..=8082);
    assert_eq!(search.target_count(), 6);
    let got: Vec<([u8; 4], u16)> = (0..6).map(|k| pair(search.target(k))).collect();
    assert_eq!(
        got,
        vec![
            ([10, 0, 0, 255], 8080),
            ([10, 0, 0, 255], 8081),
            ([10, 0, 0, 255], 8082),
            ([10, 0, 1, 0], 8080),
            ([10, 0, 1, 0], 8081),
            ([10, 0, 1, 0], 8082),
        ]
    );
}

#[test]
fn reversed_ranges_scan_nothing() {
    assert_eq!(Decoders::search([192, 168, 1, 2]..=[192, 168, 1, 1], 80..=80).target_count(), 0);
    assert_eq!(Decoders::search([192, 168, 1, 1]..=[192, 168, 1, 2], 81..=80).target_count(), 0);
}

#[test]
fn whole_address_space_is_counted() {
    let search = Decoders::search([0, 0, 0, 0]..=[255, 255, 255, 255], 0..=65535);
    assert_eq!(search.target_count(), 1u64 << 48);
    assert_eq!(pair(search.target((1u64 << 48) - 1)), ([255, 255, 255, 255], 65535));
    assert_eq!(pair(search.target(65536)), ([0, 0, 0, 1], 0));
}

#[test]
fn probes_use_the_scan_timeout() {
    let search = Decoders::search([192, 168, 1, 1]..=[192, 168, 1, 3], 8080..=8080).with_timeout(75);
    let decoder = search.probe(2);
    assert_eq!(decoder.ip(), [192, 168, 1, 3]);
    assert_eq!(decoder.port(), 8080);
    assert_eq!(decoder.timeout(), 75);
}
