use tryx::events::groups::{EvGroupUpdate, GroupNotificationAction, GroupParticipant, GroupUpdate};
use tryx::events::messages::{
    EvChatPresence, EvMessage, EvPairSuccess, EvPictureUpdate, EvReceipt, EvUndecryptableMessage, EvUserAboutUpdate,
    PairSuccess, PictureUpdate, UserAboutUpdate,
};
use tryx::events::reasons::ConnectFailureReason;
use tryx::events::sync::{
    BusinessStatusUpdate, BusinessSubscription, DeviceListUpdate, EvBusinessStatusUpdate, EvDeviceListUpdate,
    EvMuteUpdate, EvPinUpdate, KeyIndexInfo, MuteUpdate, PinUpdate,
};
use tryx::events::types::{
    BusinessStatusUpdateType, ChatPresence, ChatPresenceMedia, DecryptFailMode, DeviceListUpdateType,
    DeviceNottificationInfo, ReceiptType, UnavailableType,
};
use tryx::events::updates::{
    DeleteMessageForMeUpdate, EvConnectFailure, EvDeleteMessageForMeUpdate, EvNewsletterLiveUpdate, EvNotification,
    EvStarUpdate, EvStreamError, NewsletterLiveUpdate, NewsletterLiveUpdateReaction, NewsletterUpdateMessage,
    StarUpdate,
};
use tryx::jid::JID;
use tryx::types::{AddressingMode, EditAttribute, MessageData, MessageInfo, MessageSource, MsgMetaInfo};
use wacore_binary::builder::NodeBuilder;

fn jid(user: &str, server: &str) -> JID {
    JID::new(user.to_string(), server.to_string()).unwrap()
}

fn source() -> MessageSource {
    MessageSource {
        chat: jid("1203", "g.us"),
        sender: jid("5511", "s.whatsapp.net"),
        is_from_me: false,
        is_group: true,
        addressing_mode: Some(AddressingMode::Pn),
        sender_alt: None,
        recipient_alt: None,
        broadcast_list_owner: None,
        recipient: None,
    }
}

fn info() -> MessageInfo {
    MessageInfo {
        id: "3EB0FF".to_string(),
        message_type: "text".to_string(),
        push_name: "Bia".to_string(),
        source: source(),
        timestamp: 1_700_000_100,
        multicast: false,
        server_id: 7,
        media_type: String::new(),
        edit: EditAttribute::Unknown("9".to_string()),
        bot_info: None,
        meta_info: MsgMetaInfo {
            target_id: None,
            target_sender: None,
            deprecated_lid_session: None,
            thread_message_id: None,
            thread_message_sender_jid: None,
        },
        device_sent_meta: None,
    }
}

#[test]
fn connect_failure_reports_its_node_or_refuses() {
    let node = NodeBuilder::new("failure").attr("reason", "401").build();
    let with = EvConnectFailure::new(ConnectFailureReason::Unknown(499), "bye".to_string(), Some(node.clone()));
    assert_eq!(with.reason, "Unknown(499)");
    assert_eq!(with.message, "bye");
    assert_eq!(with.node().unwrap(), &node);
    let without = EvConnectFailure::new(ConnectFailureReason::LoggedOut, String::new(), None);
    assert_eq!(without.reason, "LoggedOut");
    assert_eq!(without.node().unwrap_err(), "ConnectFailure does not contain a node");
}

#[test]
fn stream_error_reports_its_node_or_refuses() {
    let node = NodeBuilder::new("stream:error").attr("code", "515").build();
    let with = EvStreamError::new("515".to_string(), Some(node.clone()));
    assert_eq!(with.node().unwrap(), &node);
    let without = EvStreamError::new("503".to_string(), None);
    assert_eq!(without.code, "503");
    assert_eq!(without.node().unwrap_err(), "StreamError does not contain a node");
    let notification = EvNotification::new(node.clone());
    assert_eq!(notification.node(), &node);
}

#[test]
fn star_update_payload_is_stable() {
    let mut ev = EvStarUpdate::new(StarUpdate {
        chat_jid: jid("5511", "s.whatsapp.net"),
        participant_jid: None,
        message_id: "ABC".to_string(),
        from_me: true,
        timestamp_ms: 1_700_000_000_123,
        from_full_sync: false,
        starred: Some(true),
    });
    let first = ev.data();
    let second = ev.data();
    for d in [&first, &second] {
        assert_eq!(d.chat_jid.to_string(), "5511@s.whatsapp.net");
        assert!(d.participant_jid.is_none());
        assert_eq!(d.message_id, "ABC");
        assert!(d.from_me);
        assert_eq!(d.timestamp_ms, 1_700_000_000_123);
        assert!(!d.from_full_sync);
        assert_eq!(d.starred, Some(true));
    }
}

#[test]
fn delete_for_me_payload_keeps_the_action_bytes() {
    let mut ev = EvDeleteMessageForMeUpdate::new(DeleteMessageForMeUpdate {
        chat_jid: jid("1203", "g.us"),
        participant_jid: Some(jid("5511", "s.whatsapp.net")),
        message_id: "M1".to_string(),
        from_me: false,
        timestamp_ms: 42,
        action: vec![8, 1, 16, 2],
        from_full_sync: true,
    });
    let a = ev.data();
    let b = ev.data();
    assert_eq!(a.action, vec![8, 1, 16, 2]);
    assert_eq!(b.action, a.action);
    assert_eq!(b.participant_jid.unwrap().to_string(), "5511@s.whatsapp.net");
    assert!(b.from_full_sync);
}

#[test]
fn newsletter_live_update_keeps_order_and_counts() {
    let mut ev = EvNewsletterLiveUpdate::new(NewsletterLiveUpdate {
        newsletter_jid: jid("1200", "newsletter"),
        messages: vec![
            NewsletterUpdateMessage {
                server_id: 101,
                reactions: vec![
                    NewsletterLiveUpdateReaction { code: "thumbs".to_string(), count: 3 },
                    NewsletterLiveUpdateReaction { code: "heart".to_string(), count: 1 },
                ],
            },
            NewsletterUpdateMessage { server_id: 102, reactions: vec![] },
        ],
    });
    let _ = ev.data();
    let d = ev.data();
    assert_eq!(d.newsletter_jid.to_string(), "1200@newsletter");
    assert_eq!(d.messages.len(), 2);
    assert_eq!(d.messages[0].server_id, 101);
    assert_eq!(d.messages[0].reactions[0].code, "thumbs");
    assert_eq!(d.messages[0].reactions[0].count, 3);
    assert_eq!(d.messages[0].reactions[1].count, 1);
    assert!(d.messages[1].reactions.is_empty());
}

#[test]
fn group_update_payload_keeps_the_action() {
    let raw = NodeBuilder::new("create").build();
    let mut add = EvGroupUpdate::new(GroupUpdate {
        group_jid: jid("1203", "g.us"),
        participant: Some(jid("77", "lid")),
        participant_pn: Some(jid("5511", "s.whatsapp.net")),
        timestamp: 1_700_000_000,
        is_lid_addressing_mode: true,
        action: GroupNotificationAction::Add {
            participants: vec![
                GroupParticipant { jid: jid("1", "lid"), phone_number: Some(jid("551", "s.whatsapp.net")) },
                GroupParticipant { jid: jid("2", "lid"), phone_number: None },
            ],
            reason: Some("invite".to_string()),
        },
    });
    let _ = add.data();
    let d = add.data();
    assert!(d.is_lid_addressing_mode);
    match d.action {
        GroupNotificationAction::Add { participants, reason } => {
            assert_eq!(participants.len(), 2);
            assert_eq!(participants[0].jid.to_string(), "1@lid");
            assert_eq!(participants[0].phone_number.as_ref().unwrap().to_string(), "551@s.whatsapp.net");
            assert!(participants[1].phone_number.is_none());
            assert_eq!(reason.as_deref(), Some("invite"));
        }
        _ => panic!("action changed"),
    }
    let mut create = EvGroupUpdate::new(GroupUpdate {
        group_jid: jid("1204", "g.us"),
        participant: None,
        participant_pn: None,
        timestamp: 5,
        is_lid_addressing_mode: false,
        action: GroupNotificationAction::Create { raw: raw.clone() },
    });
    let _ = create.data();
    match create.data().action {
        GroupNotificationAction::Create { raw: got } => assert_eq!(got, raw),
        _ => panic!("action changed"),
    }
}

#[test]
fn receipt_and_undecryptable_expose_their_parts() {
    let mut receipt = EvReceipt::new(
        source(),
        vec!["A".to_string(), "B".to_string()],
        1_700_000_000_500,
        ReceiptType::Read,
        jid("5511", "s.whatsapp.net"),
    );
    assert_eq!(receipt.message_ids(), vec!["A".to_string(), "B".to_string()]);
    assert_eq!(receipt.timestamp_ms(), 1_700_000_000_500);
    assert_eq!(receipt.receipt_type(), ReceiptType::Read);
    assert_eq!(receipt.message_sender().to_string(), "5511@s.whatsapp.net");
    let s1 = receipt.source().unwrap();
    let s2 = receipt.source().unwrap();
    assert_eq!(s1.chat.to_string(), "1203@g.us");
    assert_eq!(s2.__repr__(), s1.__repr__());

    let mut undecryptable =
        EvUndecryptableMessage::new(info(), true, UnavailableType::ViewOnce, DecryptFailMode::Hide);
    assert!(undecryptable.is_unavailable());
    assert_eq!(undecryptable.unavailable_type(), UnavailableType::ViewOnce);
    assert_eq!(undecryptable.decrypt_fail_mode(), DecryptFailMode::Hide);
    let i1 = undecryptable.info().unwrap();
    let i2 = undecryptable.info().unwrap();
    assert_eq!(i1.__repr__(), "MessageInfo(id='3EB0FF', type='text', push_name='Bia')");
    assert_eq!(i2.__repr__(), i1.__repr__());
    assert_eq!(i2.edit(), "Unknown");
}

#[test]
fn message_event_and_chat_presence() {
    let mut message = EvMessage::new(MessageData {
        conversation: Some("oi".to_string()),
        extended_text_message: None,
        image_caption: None,
        video_caption: None,
        document_caption: None,
        info: info(),
    });
    let d1 = message.data();
    let d2 = message.data();
    assert_eq!(d1.get_text(), Some("oi"));
    assert_eq!(d2.get_text(), Some("oi"));
    assert_eq!(d2.message_info().server_id(), 7);

    let mut typing = EvChatPresence::new(source(), ChatPresence::Composing, ChatPresenceMedia::Audio);
    assert_eq!(typing.state(), "composing");
    assert_eq!(typing.media(), "audio");
    assert_eq!(typing.source().sender.to_string(), "5511@s.whatsapp.net");
    assert_eq!(typing.source().chat.to_string(), "1203@g.us");
}

#[test]
fn pairing_picture_and_about_payloads() {
    let mut paired = EvPairSuccess::new(PairSuccess {
        id: jid("5511", "s.whatsapp.net"),
        lid: jid("77", "lid"),
        business_name: "Loja".to_string(),
        platform: "android".to_string(),
    });
    let p = paired.data();
    assert_eq!(paired.data().platform, p.platform);
    assert_eq!(p.lid.to_string(), "77@lid");
    assert_eq!(p.business_name, "Loja");

    let mut picture = EvPictureUpdate::new(PictureUpdate {
        jid: jid("5511", "s.whatsapp.net"),
        author: None,
        timestamp: 1_700_000_000,
        removed: true,
        picture_id: None,
    });
    let pic = picture.data();
    assert_eq!(pic.timestamp, Some(1_700_000_000));
    assert!(pic.removed);
    assert!(picture.data().picture_id.is_none());

    let mut about = EvUserAboutUpdate::new(UserAboutUpdate {
        jid: jid("5511", "s.whatsapp.net"),
        status: "busy".to_string(),
        timestamp: 9,
    });
    assert_eq!(about.data().status, "busy");
    assert_eq!(about.data().timestamp, Some(9));
}

#[test]
fn sync_payloads_are_stable() {
    let mut pin = EvPinUpdate::new(PinUpdate {
        jid: jid("5511", "s.whatsapp.net"),
        timestamp: 3,
        pinned: Some(false),
        from_full_sync: true,
    });
    assert_eq!(pin.data().pinned, Some(false));
    assert_eq!(pin.data().timestamp, 3);

    let mut mute = EvMuteUpdate::new(MuteUpdate {
        jid: jid("1203", "g.us"),
        timestamp: 4,
        action: vec![8, 1],
        from_full_sync: false,
    });
    assert_eq!(mute.data().action, vec![8, 1]);
    assert_eq!(mute.data().action, vec![8, 1]);

    let mut devices = EvDeviceListUpdate::new(DeviceListUpdate {
        user: jid("5511", "s.whatsapp.net"),
        lid_user: None,
        update_type: DeviceListUpdateType::Added,
        devices: vec![
            DeviceNottificationInfo { device_id: 3, key_index: Some(9) },
            DeviceNottificationInfo { device_id: 5, key_index: None },
        ],
        key_index: Some(KeyIndexInfo::new(77, Some(vec![1, 2, 3]))),
        contact_hash: Some("h".to_string()),
    });
    let _ = devices.data();
    let d = devices.data();
    assert_eq!(d.update_type, DeviceListUpdateType::Added);
    assert_eq!(d.devices, vec![
        DeviceNottificationInfo { device_id: 3, key_index: Some(9) },
        DeviceNottificationInfo { device_id: 5, key_index: None },
    ]);
    let k = d.key_index.unwrap();
    assert_eq!(k.timestamp, 77);
    assert_eq!(k.signed_bytes, Some(vec![1, 2, 3]));
    assert_eq!(d.contact_hash.as_deref(), Some("h"));

    let mut business = EvBusinessStatusUpdate::new(BusinessStatusUpdate {
        jid: jid("5511", "s.whatsapp.net"),
        update_type: BusinessStatusUpdateType::ProductsUpdated,
        timestamp: 11,
        target_jid: None,
        hash: None,
        product_ids: vec!["p1".to_string(), "p2".to_string()],
        collection_ids: vec![],
        subscriptions: vec![BusinessSubscription {
            id: "s".to_string(),
            status: "active".to_string(),
            expiration_date: Some(100),
            creation_time: None,
        }],
    });
    let _ = business.data();
    let b = business.data();
    assert_eq!(b.update_type, BusinessStatusUpdateType::ProductsUpdated);
    assert_eq!(b.product_ids, vec!["p1".to_string(), "p2".to_string()]);
    assert!(b.collection_ids.is_empty());
    assert_eq!(b.subscriptions[0].status, "active");
    assert_eq!(b.subscriptions[0].expiration_date, Some(100));
}
