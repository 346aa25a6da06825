use tryx::download::{decode_media, kind_for_descriptor_name, MediaKind, MediaMessage};

fn kind(m: &MediaMessage) -> MediaKind {
    match m {
        MediaMessage::Image(_) => MediaKind::Image,
        MediaMessage::Video(_) => MediaKind::Video,
        MediaMessage::Document(_) => MediaKind::Document,
        MediaMessage::Audio(_) => MediaKind::Audio,
        MediaMessage::Sticker(_) => MediaKind::Sticker,
    }
}

#[test]
fn descriptor_names_select_the_kind() {
    assert_eq!(kind_for_descriptor_name("ImageMessage"), Some(MediaKind::Image));
    assert_eq!(kind_for_descriptor_name("StickerMessage"), Some(MediaKind::Sticker));
    assert_eq!(kind_for_descriptor_name("Message"), None);
    let decoded = decode_media("VideoMessage", &[]).ok().unwrap();
    assert_eq!(kind(&decoded), MediaKind::Video);
    let decoded = decode_media("AudioMessage", &[]).ok().unwrap();
    assert_eq!(kind(&decoded), MediaKind::Audio);
}

#[test]
fn unknown_names_fall_back_to_the_first_kind_that_decodes() {
    let decoded = decode_media("", &[]).ok().unwrap();
    assert_eq!(kind(&decoded), MediaKind::Image);
    let garbage = [0xffu8, 0xff, 0xff];
    let err = decode_media("Other", &garbage).err().unwrap();
    assert_eq!(err, "Failed to decode message as supported media message");
    let err = decode_media("DocumentMessage", &garbage).err().unwrap();
    assert!(err.starts_with("Failed to decode DocumentMessage: "));
    assert!(err.len() > "Failed to decode DocumentMessage: ".len());
}
