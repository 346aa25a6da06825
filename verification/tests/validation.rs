use tryx::helpers::{StatusPrivacySetting, StatusSendOptions};
use tryx::jid::JID;
use tryx::requests::{
    group_description, group_subject,
    as_32_bytes, check_community_name, check_disallowed_list, check_newsletter_name, check_newsletter_update,
    check_privacy_setting, check_status_media, combine_lookup_answers, parse_call_link_media, plan_is_on_whatsapp,
    prepare_status_media, require_non_empty, LookupKind,
    status_options, CallLinkMedia, PrivacyCategory, PrivacyValue,
};
use tryx::types::UploadResponse;
use wacore::iq::groups::{GroupDescription, GroupSubject};

#[test]
fn empty_lists_are_refused_by_name() {
    assert_eq!(require_non_empty(0, "participants"), Err("participants cannot be empty".to_string()));
    assert_eq!(require_non_empty(0, "recipients"), Err("recipients cannot be empty".to_string()));
    assert_eq!(require_non_empty(0, "options"), Err("options cannot be empty".to_string()));
    assert_eq!(require_non_empty(0, "option_names"), Err("option_names cannot be empty".to_string()));
    assert_eq!(require_non_empty(0, "subgroup_jids"), Err("subgroup_jids cannot be empty".to_string()));
    assert_eq!(require_non_empty(3, "participants"), Ok(()));
}

#[test]
fn blank_names_are_refused() {
    assert_eq!(check_newsletter_name("  \t"), Err("name cannot be empty".to_string()));
    assert_eq!(check_newsletter_name(""), Err("name cannot be empty".to_string()));
    assert_eq!(check_newsletter_name(" News "), Ok(()));
    assert_eq!(check_community_name("\u{2003}"), Err("Community name cannot be empty".to_string()));
    assert_eq!(check_community_name("Club"), Ok(()));
}

#[test]
fn newsletter_updates_need_a_change() {
    assert_eq!(
        check_newsletter_update(&None, &None),
        Err("at least one of name or description must be provided".to_string())
    );
    assert_eq!(check_newsletter_update(&Some("n".to_string()), &None), Ok(()));
    assert_eq!(check_newsletter_update(&None, &Some(String::new())), Ok(()));
}

#[test]
fn keys_must_be_32_bytes() {
    assert_eq!(as_32_bytes("upload.media_key", &[1; 32]), Ok(vec![1; 32]));
    assert_eq!(as_32_bytes("upload.media_key", &[1; 16]), Err("upload.media_key must contain exactly 32 bytes".to_string()));
}

fn upload(media_key: usize, enc: usize, plain: usize) -> UploadResponse {
    UploadResponse {
        url: "https://mmg.whatsapp.net/x".to_string(),
        direct_path: "/v/x".to_string(),
        media_key: vec![1; media_key],
        file_enc_sha256: vec![2; enc],
        file_sha256: vec![3; plain],
        file_length: 10,
    }
}

#[test]
fn status_media_checks_in_order() {
    assert_eq!(check_status_media(0, &upload(1, 1, 1)).err(), Some("recipients cannot be empty".to_string()));
    assert_eq!(
        check_status_media(1, &upload(31, 1, 1)).err(),
        Some("upload.media_key must contain exactly 32 bytes".to_string())
    );
    assert_eq!(
        check_status_media(1, &upload(32, 1, 1)).err(),
        Some("upload.file_enc_sha256 must contain exactly 32 bytes".to_string())
    );
    assert_eq!(
        check_status_media(1, &upload(32, 32, 33)).err(),
        Some("upload.file_sha256 must contain exactly 32 bytes".to_string())
    );
    let keys = check_status_media(2, &upload(32, 32, 32)).ok().unwrap();
    assert_eq!((keys.media_key, keys.file_enc_sha256, keys.file_sha256), (vec![1; 32], vec![2; 32], vec![3; 32]));
    assert_eq!(status_options(None).privacy, StatusPrivacySetting::Contacts);
    let given = StatusSendOptions { privacy: StatusPrivacySetting::AllowList };
    assert_eq!(status_options(Some(given)), given);
}

#[test]
fn call_link_media() {
    assert_eq!(parse_call_link_media("audio"), Ok(CallLinkMedia::Audio));
    assert_eq!(parse_call_link_media("video"), Ok(CallLinkMedia::Video));
    assert_eq!(parse_call_link_media("Audio"), Err("media must be audio or video".to_string()));
}

#[test]
fn privacy_values_per_category() {
    assert_eq!(check_privacy_setting(&PrivacyCategory::Last, &PrivacyValue::ContactBlacklist), Ok(()));
    assert_eq!(
        check_privacy_setting(&PrivacyCategory::Online, &PrivacyValue::Contacts),
        Err("invalid value for privacy category".to_string())
    );
    assert!(PrivacyCategory::Online.is_valid_value(&PrivacyValue::MatchLastSeen));
    assert!(PrivacyCategory::ReadReceipts.is_valid_value(&PrivacyValue::Nobody));
    assert!(!PrivacyCategory::ReadReceipts.is_valid_value(&PrivacyValue::Contacts));
    assert!(PrivacyCategory::CallAdd.is_valid_value(&PrivacyValue::Known));
    assert!(!PrivacyCategory::Messages.is_valid_value(&PrivacyValue::Nobody));
    assert!(PrivacyCategory::DefenseMode.is_valid_value(&PrivacyValue::OnStandard));
    assert!(!PrivacyCategory::DefenseMode.is_valid_value(&PrivacyValue::All));
    assert!(PrivacyCategory::Other("future".to_string()).is_valid_value(&PrivacyValue::Other("x".to_string())));
    assert_eq!(check_disallowed_list(&PrivacyCategory::GroupAdd), Ok(()));
    assert_eq!(
        check_disallowed_list(&PrivacyCategory::Online),
        Err("category does not support disallowed list".to_string())
    );
}

#[test]
fn lookups_split_by_server() {
    let mut a = JID::new("551".to_string(), "s.whatsapp.net".to_string()).unwrap();
    a.device = 2;
    let b = JID::new("777".to_string(), "lid".to_string()).unwrap();
    let c = JID::new("123".to_string(), "g.us".to_string()).unwrap();
    let d = JID::new("552".to_string(), "s.whatsapp.net".to_string()).unwrap();
    let plan = plan_is_on_whatsapp(&vec![a, b, c, d]);
    let pn: Vec<String> = plan.pn_users.iter().map(|j| j.to_string()).collect();
    let lid: Vec<String> = plan.lid_users.iter().map(|j| j.to_string()).collect();
    assert_eq!(pn, vec!["551@s.whatsapp.net".to_string(), "552@s.whatsapp.net".to_string()]);
    assert_eq!(lid, vec!["777@lid".to_string()]);
}

#[test]
fn group_subject_and_description_limits() {
    assert!(group_subject(&"é".repeat(100)).is_ok());
    assert_eq!(group_subject(&"é".repeat(101)).err(), Some("Group subject exceeds 100 characters".to_string()));
    assert!(matches!(group_description(None), Ok(None)));
    assert!(matches!(group_description(Some(&"x".repeat(2048))), Ok(Some(_))));
    assert_eq!(
        group_description(Some(&"x".repeat(2049))).err(),
        Some("Group description exceeds 2048 characters".to_string())
    );
}

#[test]
fn lookup_queries_skip_empty_lists() {
    let pn = JID::new("551".to_string(), "s.whatsapp.net".to_string()).unwrap();
    let lid = JID::new("777".to_string(), "lid".to_string()).unwrap();
    let group = JID::new("123".to_string(), "g.us".to_string()).unwrap();
    let both = plan_is_on_whatsapp(&vec![lid.duplicate(), pn.duplicate()]).queries();
    assert_eq!(both.len(), 2);
    assert_eq!(both[0].0, LookupKind::Pn);
    assert_eq!(both[0].1[0].to_string(), "551@s.whatsapp.net");
    assert_eq!(both[1].0, LookupKind::Lid);
    assert_eq!(both[1].1[0].to_string(), "777@lid");
    let only_lid = plan_is_on_whatsapp(&vec![lid.duplicate(), group.duplicate()]).queries();
    assert_eq!(only_lid.len(), 1);
    assert_eq!(only_lid[0].0, LookupKind::Lid);
    assert!(plan_is_on_whatsapp(&vec![group]).queries().is_empty());
    assert!(plan_is_on_whatsapp(&vec![]).queries().is_empty());
}

#[test]
fn lookup_answers_are_concatenated_in_query_order() {
    assert_eq!(combine_lookup_answers(vec![vec![1, 2], vec![], vec![3]]), vec![1, 2, 3]);
    assert_eq!(combine_lookup_answers::<u8>(vec![]), Vec::<u8>::new());
}

#[test]
fn group_subject_and_description_wrap_the_text() {
    assert_eq!(group_subject("Team").unwrap(), GroupSubject::new("Team").unwrap());
    assert_eq!(group_description(Some("About")).unwrap(), Some(GroupDescription::new("About").unwrap()));
}

#[test]
fn status_media_checks_come_before_the_running_client() {
    let good = UploadResponse {
        url: String::new(),
        direct_path: String::new(),
        media_key: vec![1; 32],
        file_enc_sha256: vec![2; 32],
        file_sha256: vec![3; 32],
        file_length: 9,
    };
    assert_eq!(prepare_status_media::<u8>(0, &good, None).err(), Some("recipients cannot be empty".to_string()));
    let mut bad = UploadResponse {
        url: String::new(),
        direct_path: String::new(),
        media_key: vec![1; 32],
        file_enc_sha256: vec![2; 32],
        file_sha256: vec![3; 32],
        file_length: 9,
    };
    bad.file_sha256 = vec![0; 31];
    assert_eq!(
        prepare_status_media::<u8>(1, &bad, None).err(),
        Some("upload.file_sha256 must contain exactly 32 bytes".to_string())
    );
    assert_eq!(prepare_status_media::<u8>(1, &good, None).err(), Some("Bot is not running".to_string()));
    let (keys, client) = prepare_status_media(1, &good, Some(7u8)).ok().unwrap();
    assert_eq!(client, 7);
    assert_eq!(keys.media_key, vec![1; 32]);
}
