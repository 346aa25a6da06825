use tryx::jid::JID;
use wacore::download::MediaType as Wire;
use tryx::requests::comment_parent_key;
use tryx::types::{
    AddressingMode, BotEditType, DeviceSentMeta, EditAttribute, MediaType, MessageData, MessageInfo, MessageSource,
    MsgBotInfo, MsgMetaInfo,
};

fn jid(user: &str, server: &str) -> JID {
    JID::new(user.to_string(), server.to_string()).unwrap()
}

fn info(is_group: bool, edit: EditAttribute) -> MessageInfo {
    MessageInfo {
        id: "3EB0ABC".to_string(),
        message_type: "text".to_string(),
        push_name: "Ana".to_string(),
        source: MessageSource {
            chat: if is_group { jid("1203", "g.us") } else { jid("5511", "s.whatsapp.net") },
            sender: jid("5511", "s.whatsapp.net"),
            is_from_me: false,
            is_group,
            addressing_mode: Some(AddressingMode::Lid),
            sender_alt: Some(jid("88", "lid")),
            recipient_alt: None,
            broadcast_list_owner: None,
            recipient: None,
        },
        timestamp: 1_700_000_000,
        multicast: true,
        server_id: 42,
        media_type: "image".to_string(),
        edit,
        bot_info: Some(MsgBotInfo { edit_type: Some(BotEditType::Last), edit_target_id: Some("T1".to_string()), edit_sender_timestamp_ms: Some(5) }),
        meta_info: MsgMetaInfo {
            target_id: Some("T0".to_string()),
            target_sender: None,
            deprecated_lid_session: Some(false),
            thread_message_id: None,
            thread_message_sender_jid: None,
        },
        device_sent_meta: Some(DeviceSentMeta { destination_jid: "x@s.whatsapp.net".to_string(), phash: "2:abc".to_string() }),
    }
}

#[test]
fn message_info_getters() {
    let i = info(false, EditAttribute::MessageEdit);
    assert!(i.multicast());
    assert_eq!(i.server_id(), 42);
    assert_eq!(i.media_type(), "image");
    assert_eq!(i.edit(), "MessageEdit");
    assert_eq!(i.__repr__(), "MessageInfo(id='3EB0ABC', type='text', push_name='Ana')");
    let bot = i.bot_info().unwrap();
    assert_eq!(bot.edit_type(), Some("Last"));
    assert_eq!(bot.edit_target_id(), Some("T1".to_string()));
    let meta = i.device_sent_meta().unwrap();
    assert_eq!((meta.destination_jid.as_str(), meta.phash.as_str()), ("x@s.whatsapp.net", "2:abc"));
    let m = i.meta_info();
    assert_eq!(m.target_id, Some("T0".to_string()));
    assert_eq!(m.deprecated_lid_session, Some(false));
    assert_eq!(info(false, EditAttribute::Unknown("9".to_string())).edit(), "Unknown");
    assert_eq!(info(false, EditAttribute::Empty).edit(), "Empty");
    assert_eq!(info(false, EditAttribute::SenderRevoke).edit(), "SenderRevoke");
}

#[test]
fn message_source_getters() {
    let i = info(true, EditAttribute::Empty);
    let s = &i.source;
    assert_eq!(s.addressing_mode(), Some("lid"));
    assert_eq!(s.chat().to_string(), "1203@g.us");
    assert_eq!(s.sender().user, "5511");
    assert!(s.is_group());
    assert!(!s.is_from_me());
    assert_eq!(s.sender_alt().unwrap().to_string(), "88@lid");
    assert!(s.recipient().is_none());
    assert_eq!(s.__repr__(), "MessageSource(chat='1203@g.us', sender='5511@s.whatsapp.net')");
}

#[test]
fn comment_keys_name_the_sender_only_in_groups() {
    let key = comment_parent_key(&info(true, EditAttribute::Empty));
    assert_eq!(key.remote_jid.as_deref(), Some("1203@g.us"));
    assert_eq!(key.from_me, Some(false));
    assert_eq!(key.id.as_deref(), Some("3EB0ABC"));
    assert_eq!(key.participant.as_deref(), Some("5511@s.whatsapp.net"));
    let key = comment_parent_key(&info(false, EditAttribute::Empty));
    assert_eq!(key.participant, None);
}

#[test]
fn message_text_selection() {
    let mut data = MessageData {
        conversation: None,
        extended_text_message: Some(Some("quoted reply".to_string())),
        image_caption: Some(None),
        video_caption: Some(Some("clip".to_string())),
        document_caption: Some(Some("doc".to_string())),
        info: info(false, EditAttribute::Empty),
    };
    assert_eq!(data.get_text(), Some("quoted reply"));
    assert_eq!(data.get_extended_text_message(), Some("quoted reply"));
    assert_eq!(data.caption(), Some("clip"));
    data.conversation = Some("hello".to_string());
    assert_eq!(data.get_text(), Some("hello"));
    assert_eq!(data.conversation(), Some("hello"));
    data.video_caption = None;
    assert_eq!(data.caption(), Some("doc"));
    data.document_caption = Some(None);
    assert_eq!(data.caption(), None);
    data.extended_text_message = Some(None);
    assert_eq!(data.get_extended_text_message(), None);
}

#[test]
fn media_types_map_to_the_protocol_library() {
    assert_eq!(MediaType::Image.to_wacore_enum(), Wire::Image);
    assert_eq!(MediaType::Video.to_wacore_enum(), Wire::Video);
    assert_eq!(MediaType::Audio.to_wacore_enum(), Wire::Audio);
    assert_eq!(MediaType::Document.to_wacore_enum(), Wire::Document);
    assert_eq!(MediaType::History.to_wacore_enum(), Wire::History);
    assert_eq!(MediaType::AppState.to_wacore_enum(), Wire::AppState);
    assert_eq!(MediaType::Sticker.to_wacore_enum(), Wire::Sticker);
    assert_eq!(MediaType::StickerPack.to_wacore_enum(), Wire::StickerPack);
    assert_eq!(MediaType::LinkThumbnail.to_wacore_enum(), Wire::LinkThumbnail);
}

#[test]
fn message_keys_from_parts() {
    let chat = jid("1203", "g.us");
    let sender = jid("5511", "s.whatsapp.net");
    let key = tryx::requests::message_key("ID1".to_string(), &chat, true, Some(&sender));
    assert_eq!(key.remote_jid.as_deref(), Some("1203@g.us"));
    assert_eq!(key.from_me, Some(true));
    assert_eq!(key.id.as_deref(), Some("ID1"));
    assert_eq!(key.participant.as_deref(), Some("5511@s.whatsapp.net"));
    let key = tryx::requests::message_key("ID2".to_string(), &chat, false, None);
    assert_eq!(key.participant, None);
}
