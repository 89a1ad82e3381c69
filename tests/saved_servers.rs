use maintui::{
    format_saved, parse_protocol, parse_saved, protocol_to_string, NetAddr, Protocol, SavePlan, SavedServers,
};

fn addr(n: u8) -> NetAddr {
    NetAddr { kind: 3, ip: 0x0a000000 + n as u128, port: 27015 }
}

#[test]
fn inserting_twice_keeps_one() {
    let mut s = SavedServers::new();
    assert!(s.insert(addr(1), Protocol::Xash49).is_some());
    assert!(s.insert(addr(1), Protocol::Xash48).is_none());
    assert_eq!(s.servers().len(), 1);
    assert_eq!(s.servers()[0].protocol(), Protocol::Xash49);
    assert!(s.contains(&addr(1)));
    assert!(s.is_changed());
}

#[test]
fn removing() {
    let mut s = SavedServers::new();
    s.insert(addr(1), Protocol::Xash49);
    s.insert(addr(2), Protocol::GoldSrc);
    assert!(s.remove(&addr(3)).is_none());
    let r = s.remove(&addr(1)).unwrap();
    assert_eq!(*r.addr(), addr(1));
    assert_eq!(s.servers().len(), 1);
    assert_eq!(*s.servers()[0].addr(), addr(2));
}

#[test]
fn file_round_trip_keeps_order() {
    let entries = vec![
        ("10.0.0.1:27015".to_string(), Protocol::Xash49),
        ("10.0.0.2:27015".to_string(), Protocol::Xash48),
        ("example.org:27016".to_string(), Protocol::GoldSrc),
    ];
    let text = format_saved(&entries);
    assert_eq!(text, "10.0.0.1:27015 49\n10.0.0.2:27015 48\nexample.org:27016 gs\n");
    let pairs = parse_saved(&text);
    assert_eq!(pairs.len(), 3);
    for (i, (a, p)) in pairs.iter().enumerate() {
        assert_eq!(*a, entries[i].0);
        assert_eq!(parse_protocol(p), Some(entries[i].1));
    }
}

#[test]
fn loading_skips_bad_and_repeated_entries() {
    let entries = vec![
        (Some(addr(1)), "49".to_string()),
        (None, "48".to_string()),
        (Some(addr(2)), "quake".to_string()),
        (Some(addr(1)), "gs".to_string()),
        (Some(addr(3)), "goldsrc".to_string()),
        (Some(addr(4)), "legacy".to_string()),
    ];
    let s = SavedServers::from_entries(&entries);
    let list: Vec<_> = s.servers().iter().map(|x| (*x.addr(), x.protocol())).collect();
    assert_eq!(
        list,
        vec![(addr(1), Protocol::Xash49), (addr(3), Protocol::GoldSrc), (addr(4), Protocol::Xash48)]
    );
    assert!(!s.is_changed());
}

#[test]
fn save_plans() {
    let mut s = SavedServers::new();
    assert_eq!(s.save_plan(&vec![]), SavePlan::Keep);
    s.insert(addr(1), Protocol::Xash48);
    assert_eq!(
        s.save_plan(&vec!["10.0.0.1:27015".to_string()]),
        SavePlan::Write("10.0.0.1:27015 48\n".to_string())
    );
    s.remove(&addr(1));
    assert_eq!(s.save_plan(&vec![]), SavePlan::Delete);
}

#[test]
fn words_split_on_any_blank() {
    let pairs = parse_saved("  a 49\r\n\tb\t48 c");
    assert_eq!(pairs, vec![("a".to_string(), "49".to_string()), ("b".to_string(), "48".to_string())]);
    assert_eq!(protocol_to_string(Protocol::GoldSrc), "gs");
    assert_eq!(parse_protocol("nope"), None);
}
