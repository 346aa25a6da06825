use tryx::helpers::{
    BlockingHelpers, ChatStateType, ChatstateHelpers, GroupsHelpers, MemberAddMode, MemberLinkMode,
    MembershipApprovalMode, NewsletterHelpers, PresenceHelpers, PresenceStatus, StatusHelpers, StatusPrivacySetting,
};
use tryx::jid::JID;

#[test]
fn invite_links_give_their_code() {
    assert_eq!(GroupsHelpers::strip_invite_url("https://chat.whatsapp.com/AbC123".to_string()), "AbC123");
    assert_eq!(GroupsHelpers::strip_invite_url("  http://chat.whatsapp.com/XyZ//  ".to_string()), "XyZ");
    assert_eq!(GroupsHelpers::strip_invite_url("\tCode42\n".to_string()), "Code42");
    assert_eq!(GroupsHelpers::strip_invite_url("https://example.com/x/".to_string()), "https://example.com/x");
    assert_eq!(GroupsHelpers::strip_invite_url("https://chat.whatsapp.com/".to_string()), "https://chat.whatsapp.com");
    assert_eq!(GroupsHelpers::strip_invite_url("   ".to_string()), "");
    assert_eq!(GroupsHelpers::strip_invite_url("\u{3000}https://chat.whatsapp.com/ÜnÎ/\u{2003}".to_string()), "ÜnÎ");
}

#[test]
fn chat_states_and_defaults() {
    assert_eq!(ChatstateHelpers::composing(), ChatStateType::Composing);
    assert_eq!(ChatstateHelpers::recording(), ChatStateType::Recording);
    assert_eq!(ChatstateHelpers::paused(), ChatStateType::Paused);
    assert_eq!(PresenceHelpers::default_status(), PresenceStatus::Available);
    assert_eq!(StatusHelpers::default_privacy(), StatusPrivacySetting::Contacts);
    assert_eq!(StatusHelpers::build_send_options(StatusPrivacySetting::DenyList).privacy, StatusPrivacySetting::DenyList);
}

#[test]
fn group_options_defaults() {
    let options = GroupsHelpers::default_create_options("Team".to_string());
    assert_eq!(options.subject, "Team");
    assert!(options.participants.is_empty());
    assert_eq!(options.member_link_mode, Some(MemberLinkMode::AdminLink));
    assert_eq!(options.member_add_mode, Some(MemberAddMode::AllMemberAdd));
    assert_eq!(options.membership_approval_mode, Some(MembershipApprovalMode::Off));
    assert_eq!(options.ephemeral_expiration, Some(0));
    assert!(!options.is_parent && !options.closed);
    assert!(!options.allow_non_admin_sub_group_creation && !options.create_general_chat);
    let jid = JID::new("123".to_string(), "s.whatsapp.net".to_string()).unwrap();
    let participant = GroupsHelpers::build_participant(jid, None, Some(vec![1, 2]));
    assert_eq!(participant.jid.user, "123");
    assert_eq!(participant.privacy, Some(vec![1, 2]));
    let built = GroupsHelpers::build_create_options(
        "Club".to_string(),
        vec![participant],
        None,
        Some(MemberAddMode::AdminAdd),
        Some(MembershipApprovalMode::On),
        Some(86400),
        true,
        true,
        false,
        true,
    );
    assert_eq!(built.participants.len(), 1);
    assert_eq!(built.member_link_mode, None);
    assert_eq!(built.ephemeral_expiration, Some(86400));
    assert!(built.is_parent && built.closed && built.create_general_chat);
}

#[test]
fn text_message_encoding() {
    assert_eq!(NewsletterHelpers::build_text_message("hi".to_string()), vec![0x0a, 0x02, b'h', b'i']);
    assert_eq!(NewsletterHelpers::build_text_message(String::new()), vec![0x0a, 0x00]);
}

#[test]
fn same_user_ignores_server_and_device() {
    let a = JID::new("5511".to_string(), "s.whatsapp.net".to_string()).unwrap();
    let b = JID::new("5511".to_string(), "lid".to_string()).unwrap();
    let c = JID::new("5512".to_string(), "s.whatsapp.net".to_string()).unwrap();
    assert!(BlockingHelpers::same_user(&a, &b));
    assert!(!BlockingHelpers::same_user(&a, &c));
}
