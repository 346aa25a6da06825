//! Event payloads of the current dispatcher. Each event with a `data`
//! accessor builds its payload on first access and hands out the same
//! payload on every later access.
use vstd::prelude::*;
use crate::events::reasons::{connect_failure_reason_to_string, reason_text, LogoutInfo};

verus! {

pub struct EvConnected;

pub struct EvDisconnected;

pub struct EvQrScannedWithoutMultidevice;

pub struct EvClientOutDated;

pub struct EvStreamReplaced;

pub struct EvGroupInfoUpdate;

/// The session was logged out.
pub struct EvLoggedOut {
    pub on_connect: bool,
    pub reason: String,
}

impl EvLoggedOut {
    /// Builds the payload of a logout; an unknown reason keeps its code.
    pub fn new(logout: LogoutInfo) -> (r: Self)
        ensures
            r.on_connect == logout.on_connect,
            r.reason@ == reason_text(logout.reason),
    {
        EvLoggedOut { on_connect: logout.on_connect, reason: connect_failure_reason_to_string(&logout.reason) }
    }
}

/// A QR code to show for pairing, valid for `timeout` seconds.
pub struct EvPairingQrCode {
    pub code: String,
    pub timeout: u64,
}

impl EvPairingQrCode {
    pub fn new(code: String, timeout: u64) -> (r: Self)
        ensures
            r.code == code,
            r.timeout == timeout,
    {
        EvPairingQrCode { code, timeout }
    }
}

/// A pairing code to type on the phone, valid for `timeout` seconds.
pub struct EvPairingCode {
    pub code: String,
    pub timeout: u64,
}

impl EvPairingCode {
    pub fn new(code: String, timeout: u64) -> (r: Self)
        ensures
            r.code == code,
            r.timeout == timeout,
    {
        EvPairingCode { code, timeout }
    }
}

/// The kind of a delivery receipt.
#[derive(Clone, Copy, Debug, PartialEq, Eq, Structural)]
pub enum ReceiptType {
    Delivered,
    Sender,
    Retry,
    Read,
    ReadSelf,
    Played,
    PlayedSelf,
    ServerError,
    Inactive,
    PeerMsg,
    HistorySync,
    EncRekeyRetry,
    Other,
}

/// Why a message could not be shown.
#[derive(Clone, Copy, Debug, PartialEq, Eq, Structural)]
pub enum UnavailableType {
    Unknown,
    ViewOnce,
}

/// Whether an undecryptable message is shown as a placeholder.
#[derive(Clone, Copy, Debug, PartialEq, Eq, Structural)]
pub enum DecryptFailMode {
    Show,
    Hide,
}

/// Typing state in a chat.
#[derive(Clone, Copy, Debug, PartialEq, Eq, Structural)]
pub enum ChatPresence {
    Composing,
    Paused,
}

pub open spec fn chat_presence_text(p: ChatPresence) -> Seq<char> {
    match p {
        ChatPresence::Composing => "composing"@,
        ChatPresence::Paused => "paused"@,
    }
}

impl ChatPresence {
    pub fn __str__(&self) -> (s: &'static str)
        ensures
            s@ == chat_presence_text(*self),
    {
        match self {
            ChatPresence::Composing => "composing",
            ChatPresence::Paused => "paused",
        }
    }

    pub fn __repr__(&self) -> (s: &'static str)
        ensures
            s@ == chat_presence_text(*self),
    {
        self.__str__()
    }
}

/// What kind of input a typing state refers to.
#[derive(Clone, Copy, Debug, PartialEq, Eq, Structural)]
pub enum ChatPresenceMedia {
    Text,
    Audio,
}

pub open spec fn chat_presence_media_text(m: ChatPresenceMedia) -> Seq<char> {
    match m {
        ChatPresenceMedia::Text => "text"@,
        ChatPresenceMedia::Audio => "audio"@,
    }
}

impl ChatPresenceMedia {
    pub fn __str__(&self) -> (s: &'static str)
        ensures
            s@ == chat_presence_media_text(*self),
    {
        match self {
            ChatPresenceMedia::Text => "text",
            ChatPresenceMedia::Audio => "audio",
        }
    }

    pub fn __repr__(&self) -> (s: &'static str)
        ensures
            s@ == chat_presence_media_text(*self),
    {
        self.__str__()
    }
}

/// The code of a temporary ban as the server sends it.
#[derive(Clone, Copy, Debug, PartialEq, Eq, Structural)]
pub enum TempBanCode {
    SentToTooManyPeople,
    BlockedByUsers,
    CreatedTooManyGroups,
    SentTooManySameMessage,
    BroadcastList,
    Unknown(i32),
}

/// The reason of a temporary ban as callbacks see it.
#[derive(Clone, Copy, Debug, PartialEq, Eq, Structural)]
pub enum TempBanReason {
    SentToTooManyPeople,
    SentBlockedNyUser,
    CreateTooManyGroups,
    SentTooManySameMessage,
    Unknown,
}

pub open spec fn temp_ban_reason_of(code: TempBanCode) -> TempBanReason {
    match code {
        TempBanCode::SentToTooManyPeople => TempBanReason::SentToTooManyPeople,
        TempBanCode::BlockedByUsers => TempBanReason::SentBlockedNyUser,
        TempBanCode::CreatedTooManyGroups => TempBanReason::CreateTooManyGroups,
        TempBanCode::SentTooManySameMessage => TempBanReason::SentTooManySameMessage,
        TempBanCode::BroadcastList => TempBanReason::Unknown,
        TempBanCode::Unknown(_) => TempBanReason::Unknown,
    }
}

pub fn temp_ban_reason(code: TempBanCode) -> (r: TempBanReason)
    ensures
        r == temp_ban_reason_of(code),
{
    match code {
        TempBanCode::SentToTooManyPeople => TempBanReason::SentToTooManyPeople,
        TempBanCode::BlockedByUsers => TempBanReason::SentBlockedNyUser,
        TempBanCode::CreatedTooManyGroups => TempBanReason::CreateTooManyGroups,
        TempBanCode::SentTooManySameMessage => TempBanReason::SentTooManySameMessage,
        TempBanCode::BroadcastList => TempBanReason::Unknown,
        TempBanCode::Unknown(_) => TempBanReason::Unknown,
    }
}

/// The payload of a temporary ban: its reason and when it ends, in
/// milliseconds since the Unix epoch.
#[derive(Clone, Copy, Debug)]
pub struct EvTemporaryData {
    pub code: TempBanReason,
    pub expire: i64,
}

impl EvTemporaryData {
    pub fn new(code: TempBanReason, expire: i64) -> (r: Self)
        ensures
            r.code == code,
            r.expire == expire,
    {
        EvTemporaryData { code, expire }
    }
}

/// A temporary ban as the server sends it; `expire` is its duration in
/// milliseconds.
#[derive(Clone, Copy, Debug)]
pub struct TemporaryBan {
    pub code: TempBanCode,
    pub expire: i64,
}

/// The temporary-ban event.
pub struct EvTemporaryBan {
    pub inner: TemporaryBan,
    pub data_cache: Option<EvTemporaryData>,
}

/// A time in milliseconds, held within the range of `i64`.
pub open spec fn clamp_millis(t: int) -> i64 {
    if t > i64::MAX {
        i64::MAX
    } else if t < i64::MIN {
        i64::MIN
    } else {
        t as i64
    }
}

/// The payload a temporary ban yields when first read at `now` (milliseconds
/// since the epoch): the mapped reason, and the moment the ban ends (held at
/// the bound of `i64` should it lie beyond).
pub open spec fn temporary_ban_data(ban: TemporaryBan, now: int) -> EvTemporaryData {
    EvTemporaryData { code: temp_ban_reason_of(ban.code), expire: clamp_millis(now + ban.expire) }
}

fn end_of_ban(now: i64, duration: i64) -> (r: i64)
    ensures
        r == clamp_millis(now + duration),
{
    match now.checked_add(duration) {
        Some(t) => t,
        None => if duration > 0 {
            i64::MAX
        } else {
            i64::MIN
        },
    }
}

impl EvTemporaryBan {
    pub fn new(inner: TemporaryBan) -> (r: Self)
        ensures
            r.inner == inner,
            r.data_cache is None,
    {
        EvTemporaryBan { inner, data_cache: None }
    }

    /// The payload: built at the first read, from the ban and the clock
    /// reading `now` (milliseconds since the epoch); later reads hand out the
    /// payload of the first.
    pub fn data(&mut self, now: i64) -> (r: EvTemporaryData)
        ensures
            final(self).inner == old(self).inner,
            r == (match old(self).data_cache {
                Some(cached) => cached,
                None => temporary_ban_data(old(self).inner, now as int),
            }),
            final(self).data_cache == Some(r),
    {
        match self.data_cache {
            Some(cached) => cached,
            None => {
                let data = EvTemporaryData::new(temp_ban_reason(self.inner.code), end_of_ban(now, self.inner.expire));
                self.data_cache = Some(data);
                data
            },
        }
    }
}

/// The server asks for a contact sync; times in milliseconds since the epoch.
#[derive(Clone, Copy, Debug, PartialEq, Eq, Structural)]
pub struct ContactSyncRequested {
    pub after: Option<i64>,
    pub timestamp: i64,
}

/// The payload of a contact-sync request.
#[derive(Clone, Copy, Debug, PartialEq, Eq, Structural)]
pub struct EvContactSyncRequestedData {
    pub after: Option<i64>,
    pub timestamp: i64,
}

pub struct EvContactSyncRequested {
    inner: ContactSyncRequested,
    data_cache: Option<EvContactSyncRequestedData>,
}

pub open spec fn contact_sync_data_of(r: ContactSyncRequested) -> EvContactSyncRequestedData {
    EvContactSyncRequestedData { after: r.after, timestamp: r.timestamp }
}

impl EvContactSyncRequested {
    /// The request this event carries.
    pub closed spec fn event(self) -> ContactSyncRequested {
        self.inner
    }

    #[verifier::type_invariant]
    closed spec fn cache_matches(self) -> bool {
        self.data_cache matches Some(c) ==> c == contact_sync_data_of(self.inner)
    }

    pub fn new(inner: ContactSyncRequested) -> (r: Self)
        ensures
            r.event() == inner,
    {
        EvContactSyncRequested { inner, data_cache: None }
    }

    /// The payload: the request's times, the same on every read.
    pub fn data(&mut self) -> (r: EvContactSyncRequestedData)
        ensures
            final(self).event() == old(self).event(),
            r == contact_sync_data_of(old(self).event()),
    {
        proof { use_type_invariant(&*self); }
        match self.data_cache {
            Some(cached) => cached,
            None => {
                let data = EvContactSyncRequestedData { after: self.inner.after, timestamp: self.inner.timestamp };
                self.data_cache = Some(data);
                data
            },
        }
    }
}

/// Counts announced before an offline sync.
#[derive(Clone, Copy, Debug, PartialEq, Eq, Structural)]
pub struct OfflineSyncData {
    pub total: i32,
    pub app_data_changes: i32,
    pub messages: i32,
    pub notifications: i32,
    pub receipts: i32,
}

impl OfflineSyncData {
    pub fn new(total: i32, app_data_changes: i32, messages: i32, notifications: i32, receipts: i32) -> (r: Self)
        ensures
            r == (OfflineSyncData { total, app_data_changes, messages, notifications, receipts }),
    {
        OfflineSyncData { total, app_data_changes, messages, notifications, receipts }
    }
}

/// The offline-sync preview as the server sends it.
#[derive(Clone, Copy, Debug, PartialEq, Eq, Structural)]
pub struct OfflineSyncPreview {
    pub total: i32,
    pub app_data_changes: i32,
    pub messages: i32,
    pub notifications: i32,
    pub receipts: i32,
}

pub open spec fn offline_sync_data_of(p: OfflineSyncPreview) -> OfflineSyncData {
    OfflineSyncData {
        total: p.total,
        app_data_changes: p.app_data_changes,
        messages: p.messages,
        notifications: p.notifications,
        receipts: p.receipts,
    }
}

pub struct EvOfflineSyncPreview {
    inner: OfflineSyncPreview,
    data_cached: Option<OfflineSyncData>,
}

impl EvOfflineSyncPreview {
    /// The preview this event carries.
    pub closed spec fn event(self) -> OfflineSyncPreview {
        self.inner
    }

    #[verifier::type_invariant]
    closed spec fn cache_matches(self) -> bool {
        self.data_cached matches Some(c) ==> c == offline_sync_data_of(self.inner)
    }

    pub fn new(inner: OfflineSyncPreview) -> (r: Self)
        ensures
            r.event() == inner,
    {
        EvOfflineSyncPreview { inner, data_cached: None }
    }

    /// The payload: the preview's counts, the same on every read.
    pub fn data(&mut self) -> (r: OfflineSyncData)
        ensures
            final(self).event() == old(self).event(),
            r == offline_sync_data_of(old(self).event()),
    {
        proof { use_type_invariant(&*self); }
        match self.data_cached {
            Some(cached) => cached,
            None => {
                let inner = self.inner;
                let data = OfflineSyncData::new(inner.total, inner.app_data_changes, inner.messages, inner.notifications, inner.receipts);
                self.data_cached = Some(data);
                data
            },
        }
    }
}

/// The number of items an offline sync delivered.
#[derive(Clone, Copy, Debug, PartialEq, Eq, Structural)]
pub struct OfflineSyncCompletedData {
    pub count: i32,
}

impl OfflineSyncCompletedData {
    pub fn new(count: i32) -> (r: Self)
        ensures
            r.count == count,
    {
        OfflineSyncCompletedData { count }
    }
}

/// The completion of an offline sync as the server sends it.
#[derive(Clone, Copy, Debug, PartialEq, Eq, Structural)]
pub struct OfflineSyncCompleted {
    pub count: i32,
}

pub struct EvOfflineSyncCompleted {
    inner: OfflineSyncCompleted,
    data_cached: Option<OfflineSyncCompletedData>,
}

impl EvOfflineSyncCompleted {
    /// The completion this event carries.
    pub closed spec fn event(self) -> OfflineSyncCompleted {
        self.inner
    }

    #[verifier::type_invariant]
    closed spec fn cache_matches(self) -> bool {
        self.data_cached matches Some(c) ==> c.count == self.inner.count
    }

    pub fn new(inner: OfflineSyncCompleted) -> (r: Self)
        ensures
            r.event() == inner,
    {
        EvOfflineSyncCompleted { inner, data_cached: None }
    }

    /// The payload: the delivered count, the same on every read.
    pub fn data(&mut self) -> (r: OfflineSyncCompletedData)
        ensures
            final(self).event() == old(self).event(),
            r.count == old(self).event().count,
    {
        proof { use_type_invariant(&*self); }
        match self.data_cached {
            Some(cached) => cached,
            None => {
                let data = OfflineSyncCompletedData::new(self.inner.count);
                self.data_cached = Some(data);
                data
            },
        }
    }
}

/// Our own push name changed.
pub struct EvSelfPushNameUpdated {
    pub from_server: bool,
    pub old_name: String,
    pub new_name: String,
}

/// How a device list changed.
#[derive(Clone, Copy, Debug, PartialEq, Eq, Structural)]
pub enum DeviceListUpdateType {
    Added,
    Removed,
    Updated,
}

/// One device of a device-list notification.
#[derive(Clone, Copy, Debug, PartialEq, Eq, Structural)]
pub struct DeviceNottificationInfo {
    pub device_id: u32,
    pub key_index: Option<u32>,
}

/// What changed about a business account.
#[derive(Clone, Copy, Debug, PartialEq, Eq, Structural)]
pub enum BusinessStatusUpdateType {
    RemovedAsBusiness,
    VerifiedNameChanged,
    ProfileUpdated,
    ProductsUpdated,
    CollectionsUpdated,
    SubscriptionsUpdated,
    Unknown,
}

/// Properties of this client's device.
pub struct DeviceProp {
    pub name: String,
    pub manufacturer: String,
    pub model: String,
    pub os_version: String,
}

/// A contact's disappearing-messages setting changed; `duration` in seconds.
#[derive(Clone, Copy, Debug, PartialEq, Eq, Structural)]
pub struct DisappearingModeSetting {
    pub duration: u32,
    pub setting_timestamp: u64,
}

} // verus!
