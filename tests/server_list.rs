use maintui::{NetAddr, Protocol, SavedServers, ServerEntry, ServerInfo, ServerList};

fn addr(n: u8) -> NetAddr {
    NetAddr { kind: 3, ip: 0x0a000000 + n as u128, port: 27015 }
}

#[test]
fn duplicate_answers_keep_one_entry() {
    let favorites = SavedServers::new();
    let mut list = ServerList::new(1000);
    assert!(list.add_server_to_list(addr(1), "\\host\\A\\numcl\\1", 1040, &favorites, false, false));
    assert!(list.add_server_to_list(addr(2), "\\host\\B", 1050, &favorites, false, false));
    assert!(list.add_server_to_list(addr(1), "\\host\\A2\\numcl\\3", 1080, &favorites, false, false));
    assert_eq!(list.entries().len(), 2);
    let a = &list.entries()[0];
    assert_eq!(a.info.host, "A2");
    assert_eq!(a.info.numcl, 3);
    assert_eq!(a.ping, 80);
    assert!(!list.add_server_to_list(addr(3), "garbage", 1100, &favorites, false, false));
    assert_eq!(list.entries().len(), 2);
    assert!(!list.is_sorted());
}

#[test]
fn favorites_tab_keeps_only_favorites() {
    let mut favorites = SavedServers::new();
    favorites.insert(addr(2), Protocol::Xash49);
    let mut list = ServerList::new(0);
    list.add_server_to_list(addr(1), "\\host\\A", 10, &favorites, true, true);
    list.add_server_to_list(addr(2), "\\host\\B", 10, &favorites, true, true);
    assert_eq!(list.entries().len(), 1);
    assert!(list.entries()[0].favorite);
}

#[test]
fn legacy_ping_is_halved() {
    let info = ServerInfo::parse(addr(1), "\\p\\48").unwrap();
    let mut e = ServerEntry::new(100, info);
    e.update_ping(300);
    assert_eq!(e.ping, 100);
    let mut list = ServerList::new(0);
    list.reset_ping(500);
    list.add_server_to_list(addr(4), "\\host\\C", 520, &SavedServers::new(), false, false);
    assert_eq!(list.entries()[0].ping, 20);
}
