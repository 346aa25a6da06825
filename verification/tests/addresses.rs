use tryx::jid::{JidError, JidServer, JID};

#[test]
fn known_servers_parse_and_print() {
    let names = [
        ("s.whatsapp.net", JidServer::Pn),
        ("lid", JidServer::Lid),
        ("g.us", JidServer::Group),
        ("broadcast", JidServer::Broadcast),
        ("newsletter", JidServer::Newsletter),
        ("hosted", JidServer::Hosted),
        ("hosted.lid", JidServer::HostedLid),
        ("msgr", JidServer::Messenger),
        ("interop", JidServer::Interop),
        ("bot", JidServer::Bot),
        ("c.us", JidServer::Legacy),
        ("call", JidServer::Call),
    ];
    for (name, server) in names {
        assert_eq!(JidServer::parse_known(name), Some(server));
        assert_eq!(server.as_str(), name);
    }
    assert_eq!(JidServer::parse_known("example.com"), None);
    assert_eq!(JidServer::parse_known(""), None);
}

#[test]
fn jid_construction_and_text() {
    let jid = JID::new("5511999".to_string(), "s.whatsapp.net".to_string()).unwrap();
    assert_eq!(jid.user(), "5511999");
    assert_eq!(jid.server(), "s.whatsapp.net");
    assert_eq!(jid.__repr__(), "JID(user='5511999', server='s.whatsapp.net')");
    assert_eq!(jid.to_string(), "5511999@s.whatsapp.net");
    let group = JID::new("1203630".to_string(), "g.us".to_string()).unwrap();
    assert_eq!(group.to_string(), "1203630@g.us");
    match JID::new("x".to_string(), "nowhere".to_string()) {
        Err(JidError::UnknownServer(name)) => assert_eq!(name, "nowhere"),
        Ok(_) => panic!("unknown server accepted"),
    }
}

#[test]
fn device_addresses_and_their_base() {
    let mut jid = JID::new("5511".to_string(), "s.whatsapp.net".to_string()).unwrap();
    jid.device = 3;
    assert_eq!(jid.to_string(), "5511:3@s.whatsapp.net");
    let base = jid.to_non_ad();
    assert_eq!(base.device, 0);
    assert_eq!(base.agent, 0);
    assert_eq!(base.to_string(), "5511@s.whatsapp.net");
    assert!(jid.is_pn());
    assert!(!jid.is_lid());
    let lid = JID::new("99".to_string(), "lid".to_string()).unwrap();
    assert!(lid.is_lid());
    assert!(JID::same_user(&jid, &base));
    let copy = jid.duplicate();
    assert_eq!((copy.user.as_str(), copy.device), ("5511", 3));
}
