use maintui::{parse_u32, NetAddr, Protocol, ServerInfo};

fn addr() -> NetAddr {
    NetAddr { kind: 3, ip: 0xc0a80001, port: 27015 }
}

#[test]
fn parses_a_record() {
    let info = ServerInfo::parse(addr(), "\\host\\Foo\\map\\bar\\numcl\\2\\maxcl\\10\\password\\1")
        .expect("a record");
    assert_eq!(info.host, "Foo");
    assert_eq!(info.map, "bar");
    assert_eq!(info.numcl, 2);
    assert_eq!(info.maxcl, 10);
    assert!(info.password);
    assert!(!info.dm);
    assert_eq!(info.protocol, Protocol::Xash49);
    assert_eq!(info.addr, addr());
}

#[test]
fn text_without_leading_backslash_is_no_record() {
    assert!(ServerInfo::parse(addr(), "not-escaped").is_none());
    assert!(ServerInfo::parse(addr(), "").is_none());
}

#[test]
fn key_without_value_is_no_record() {
    assert!(ServerInfo::parse(addr(), "\\host").is_none());
    assert!(ServerInfo::parse(addr(), "\\").is_none());
}

#[test]
fn colors_and_case() {
    let info = ServerInfo::parse(
        addr(),
        "\\host\\  ^1Red ^7Server \\gamedir\\^2valve\\numcl\\^3x\\dm\\1\\team\\0\\coop\\1\\dedicated\\1\\extra\\?",
    )
    .unwrap();
    assert_eq!(info.host, "^1Red ^7Server");
    assert_eq!(info.host_cmp, "red server");
    assert_eq!(info.gamedir, "valve");
    assert_eq!(info.numcl, 0);
    assert!(info.dm && !info.team && info.coop && info.dedicated);
}

#[test]
fn protocol_keys() {
    let p = |s: &str| ServerInfo::parse(addr(), s).unwrap().protocol;
    assert_eq!(p("\\p\\48"), Protocol::Xash48);
    assert_eq!(p("\\p\\49"), Protocol::Xash49);
    assert_eq!(p("\\p\\50"), Protocol::Xash49);
    assert_eq!(p("\\legacy\\1"), Protocol::Xash48);
    assert_eq!(p("\\gs\\1"), Protocol::GoldSrc);
    assert_eq!(p("\\gs\\0"), Protocol::Xash49);
}

#[test]
fn known_host_record() {
    let info = ServerInfo::with_host_and_proto(addr(), "Saved".to_string(), Protocol::GoldSrc);
    assert_eq!(info.host, "Saved");
    assert_eq!(info.protocol, Protocol::GoldSrc);
    assert_eq!(info.numcl, 0);
}

#[test]
fn decimal_numbers() {
    assert_eq!(parse_u32("0"), Some(0));
    assert_eq!(parse_u32("+42"), Some(42));
    assert_eq!(parse_u32("4294967295"), Some(u32::MAX));
    assert_eq!(parse_u32("4294967296"), None);
    assert_eq!(parse_u32(""), None);
    assert_eq!(parse_u32("+"), None);
    assert_eq!(parse_u32("-1"), None);
    assert_eq!(parse_u32("12a"), None);
}
