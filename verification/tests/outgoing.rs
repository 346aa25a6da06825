use buffa::Message as _;
use tryx::download::{decode_media, MediaMessage};
use tryx::jid::JID;
use tryx::outgoing::{
    build_photo_message, build_send_text_message, decode_message_key, decode_sync_action_message_range,
    read_outgoing_message, QuotedMessage,
};
use tryx::types::UploadResponse;
use waproto::whatsapp as wa;

fn quoted_message() -> Vec<u8> {
    let m = wa::Message { conversation: Some("original".to_string()), ..Default::default() };
    m.encode_to_vec()
}

fn quote() -> QuotedMessage {
    QuotedMessage {
        id: "3EB0QUOTED".to_string(),
        chat: JID::new("5511".to_string(), "s.whatsapp.net".to_string()).unwrap(),
        message: quoted_message(),
    }
}

#[test]
fn plain_text_is_a_conversation() {
    let bytes = build_send_text_message("hi", None).unwrap();
    assert_eq!(bytes, vec![0x0a, 0x02, b'h', b'i']);
}

#[test]
fn reply_quotes_the_message() {
    let q = quote();
    let bytes = build_send_text_message("answer", Some(&q)).unwrap();
    let m = wa::Message::decode_from_slice(&bytes).unwrap();
    assert!(m.conversation.is_none());
    let ext = m.extended_text_message.as_option().unwrap();
    assert_eq!(ext.text.as_deref(), Some("answer"));
    let ctx = ext.context_info.as_option().unwrap();
    assert_eq!(ctx.stanza_id.as_deref(), Some("3EB0QUOTED"));
    assert_eq!(ctx.participant.as_deref(), Some("5511@s.whatsapp.net"));
    let inner = ctx.quoted_message.as_option().unwrap();
    assert_eq!(inner.conversation.as_deref(), Some("original"));
}

#[test]
fn reply_to_undecodable_message_is_refused() {
    let mut q = quote();
    q.message = vec![0xff, 0xff, 0xff];
    let err = build_send_text_message("answer", Some(&q)).unwrap_err();
    assert!(err.starts_with("Failed to decode WhatsAppMessage proto: "));
    assert!(err.len() > "Failed to decode WhatsAppMessage proto: ".len());
}

fn upload() -> UploadResponse {
    UploadResponse {
        url: "https://mmg.example/x".to_string(),
        direct_path: "/v/x".to_string(),
        media_key: vec![1, 2, 3],
        file_enc_sha256: vec![4, 5],
        file_sha256: vec![6],
        file_length: 1234,
    }
}

#[test]
fn photo_message_carries_the_upload() {
    let bytes = build_photo_message(&upload(), "look", None).unwrap();
    let m = wa::Message::decode_from_slice(&bytes).unwrap();
    let img = m.image_message.as_option().unwrap();
    assert_eq!(img.url.as_deref(), Some("https://mmg.example/x"));
    assert_eq!(img.direct_path.as_deref(), Some("/v/x"));
    assert_eq!(img.media_key.as_deref(), Some(&[1u8, 2, 3][..]));
    assert_eq!(img.file_enc_sha256.as_deref(), Some(&[4u8, 5][..]));
    assert_eq!(img.file_sha256.as_deref(), Some(&[6u8][..]));
    assert_eq!(img.file_length, Some(1234));
    assert_eq!(img.caption.as_deref(), Some("look"));
    assert!(img.context_info.as_option().is_none());

    let q = quote();
    let bytes = build_photo_message(&upload(), "look", Some(&q)).unwrap();
    let m = wa::Message::decode_from_slice(&bytes).unwrap();
    let ctx = m.image_message.as_option().unwrap().context_info.as_option().unwrap();
    assert_eq!(ctx.stanza_id.as_deref(), Some("3EB0QUOTED"));

    let mut bad = quote();
    bad.message = vec![0xff, 0xff, 0xff];
    assert!(build_photo_message(&upload(), "look", Some(&bad)).unwrap_err().starts_with("Failed to decode WhatsAppMessage proto: "));
}

#[test]
fn raw_messages_are_read_or_refused() {
    let m = read_outgoing_message(&quoted_message()).unwrap();
    assert_eq!(m.conversation.as_deref(), Some("original"));
    assert!(read_outgoing_message(&[0xff, 0xff, 0xff]).unwrap_err().starts_with("Failed to decode WhatsAppMessage proto: "));

    let key = wa::MessageKey { id: Some("K1".to_string()), from_me: Some(true), ..Default::default() };
    let decoded = decode_message_key(&key.encode_to_vec()).unwrap();
    assert_eq!(decoded.id.as_deref(), Some("K1"));
    assert_eq!(decoded.from_me, Some(true));
    assert!(decode_message_key(&[0xff, 0xff, 0xff]).unwrap_err().starts_with("Failed to decode MessageKey: "));

    assert!(decode_sync_action_message_range(None).unwrap().is_none());
    let range = wa::sync_action_value::SyncActionMessageRange { last_message_timestamp: Some(77), ..Default::default() };
    let bytes = range.encode_to_vec();
    let decoded = decode_sync_action_message_range(Some(&bytes)).unwrap().unwrap();
    assert_eq!(decoded.last_message_timestamp, Some(77));
    assert!(decode_sync_action_message_range(Some(&[0xff, 0xff, 0xff]))
        .unwrap_err()
        .starts_with("Failed to decode SyncActionMessageRange: "));
}

#[test]
fn downloaded_image_is_the_one_encoded() {
    let img = wa::message::ImageMessage { caption: Some("cap".to_string()), ..Default::default() };
    match decode_media("ImageMessage", &img.encode_to_vec()).ok().unwrap() {
        MediaMessage::Image(m) => assert_eq!(m.caption.as_deref(), Some("cap")),
        _ => panic!("wrong kind"),
    }
}
