use tryx::events::reasons::{connect_failure_reason_label, connect_failure_reason_to_string, ConnectFailureReason, LogoutInfo};
use tryx::events::session::{LoggedOut, PairingQrCode};
use tryx::events::types::{
    temp_ban_reason, ChatPresence, ChatPresenceMedia, ContactSyncRequested, EvContactSyncRequested, EvLoggedOut,
    EvOfflineSyncCompleted, EvOfflineSyncPreview, EvPairingCode, EvPairingQrCode, EvTemporaryBan, EvTemporaryData,
    OfflineSyncCompleted, OfflineSyncCompletedData, OfflineSyncData, OfflineSyncPreview, TempBanCode, TempBanReason,
    TemporaryBan,
};

#[test]
fn connect_failure_reasons_render() {
    assert_eq!(connect_failure_reason_to_string(&ConnectFailureReason::BadUserAgent), "BadUserAgent");
    assert_eq!(connect_failure_reason_to_string(&ConnectFailureReason::TempBanned), "TempBanned");
    assert_eq!(connect_failure_reason_to_string(&ConnectFailureReason::UnknownLogout), "Unknown");
    assert_eq!(connect_failure_reason_to_string(&ConnectFailureReason::Unknown(503)), "Unknown(503)");
    assert_eq!(connect_failure_reason_to_string(&ConnectFailureReason::Unknown(-7)), "Unknown(-7)");
    assert_eq!(connect_failure_reason_to_string(&ConnectFailureReason::Unknown(i32::MIN)), "Unknown(-2147483648)");
    assert_eq!(connect_failure_reason_to_string(&ConnectFailureReason::Unknown(0)), "Unknown(0)");
    assert_eq!(connect_failure_reason_label(&ConnectFailureReason::Unknown(503)), "Unknown");
    assert_eq!(connect_failure_reason_label(&ConnectFailureReason::MainDeviceGone), "MainDeviceGone");
}

#[test]
fn logout_payloads_carry_the_reason_label() {
    let logout = LoggedOut::new(LogoutInfo { on_connect: true, reason: ConnectFailureReason::Unknown(9) });
    assert!(logout.on_connect);
    assert_eq!(logout.reason, "Unknown");
    let ev = EvLoggedOut::new(LogoutInfo { on_connect: false, reason: ConnectFailureReason::LoggedOut });
    assert!(!ev.on_connect);
    assert_eq!(ev.reason, "LoggedOut");
}

#[test]
fn pairing_payloads_keep_their_fields() {
    let qr = PairingQrCode::new("2@abc".to_string(), 60);
    assert_eq!(qr.code, "2@abc");
    assert_eq!(qr.timeout, 60);
    let ev = EvPairingQrCode::new("2@def".to_string(), 20);
    assert_eq!((ev.code.as_str(), ev.timeout), ("2@def", 20));
    let code = EvPairingCode::new("ABCD-EFGH".to_string(), 180);
    assert_eq!((code.code.as_str(), code.timeout), ("ABCD-EFGH", 180));
}

#[test]
fn chat_presence_names() {
    assert_eq!(ChatPresence::Composing.__str__(), "composing");
    assert_eq!(ChatPresence::Paused.__repr__(), "paused");
    assert_eq!(ChatPresenceMedia::Text.__str__(), "text");
    assert_eq!(ChatPresenceMedia::Audio.__repr__(), "audio");
}

#[test]
fn temporary_ban_codes_map_to_reasons() {
    assert_eq!(temp_ban_reason(TempBanCode::SentToTooManyPeople), TempBanReason::SentToTooManyPeople);
    assert_eq!(temp_ban_reason(TempBanCode::BlockedByUsers), TempBanReason::SentBlockedNyUser);
    assert_eq!(temp_ban_reason(TempBanCode::CreatedTooManyGroups), TempBanReason::CreateTooManyGroups);
    assert_eq!(temp_ban_reason(TempBanCode::SentTooManySameMessage), TempBanReason::SentTooManySameMessage);
    assert_eq!(temp_ban_reason(TempBanCode::BroadcastList), TempBanReason::Unknown);
    assert_eq!(temp_ban_reason(TempBanCode::Unknown(77)), TempBanReason::Unknown);
}

#[test]
fn temporary_ban_payload_is_built_once() {
    let mut ev = EvTemporaryBan::new(TemporaryBan { code: TempBanCode::BlockedByUsers, expire: 3_600_000 });
    let first = ev.data(1_000);
    assert_eq!(first.code, TempBanReason::SentBlockedNyUser);
    assert_eq!(first.expire, 3_601_000);
    let again = ev.data(9_999_999);
    assert_eq!(again.expire, 3_601_000);
    let data = EvTemporaryData::new(TempBanReason::Unknown, 5);
    assert_eq!((data.code, data.expire), (TempBanReason::Unknown, 5));
}

#[test]
fn sync_payloads_copy_the_event() {
    let mut ev = EvContactSyncRequested::new(ContactSyncRequested { after: Some(10), timestamp: 20 });
    let data = ev.data();
    assert_eq!((data.after, data.timestamp), (Some(10), 20));
    let preview = OfflineSyncPreview { total: 9, app_data_changes: 1, messages: 5, notifications: 2, receipts: 1 };
    let mut ev = EvOfflineSyncPreview::new(preview);
    let data = ev.data();
    assert_eq!(data, OfflineSyncData::new(9, 1, 5, 2, 1));
    let mut done = EvOfflineSyncCompleted::new(OfflineSyncCompleted { count: 42 });
    assert_eq!(done.data().count, 42);
    assert_eq!(done.data().count, 42);
    assert_eq!(OfflineSyncCompletedData::new(3).count, 3);
}
