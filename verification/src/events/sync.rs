//! Event payloads of chat settings and account changes that reach this
//! device through app-state sync and notifications. Each event keeps the
//! change as the server sent it and builds its payload on first access;
//! every later access hands out a payload of the same value. Times are in
//! seconds since the epoch; a sync action is carried encoded.
use vstd::prelude::*;
use crate::events::messages::{copy_texts, texts_view};
use crate::events::types::{BusinessStatusUpdateType, DeviceListUpdateType, DeviceNottificationInfo};
use crate::events::updates::{copy_bytes, ChatActionView};
use crate::jid::{opt_jid_view, JidView, JID};
use crate::types::{duplicate_text, opt_text, MessageInfo, MessageInfoView};

verus! {

/// A contact changed their push name.
pub struct PushNameUpdate {
    pub jid: JID,
    pub message: MessageInfo,
    pub old_push_name: String,
    pub new_push_name: String,
}

/// The value of a push-name change.
pub struct PushNameView {
    pub jid: JidView,
    pub message: MessageInfoView,
    pub old_push_name: Seq<char>,
    pub new_push_name: Seq<char>,
}

impl View for PushNameUpdate {
    type V = PushNameView;

    open spec fn view(&self) -> PushNameView {
        PushNameView {
            jid: self.jid@,
            message: self.message@,
            old_push_name: self.old_push_name@,
            new_push_name: self.new_push_name@,
        }
    }
}

/// The payload of a push-name change.
pub struct EvPushNameUpdateData {
    pub jid: JID,
    pub message: MessageInfo,
    pub old_push_name: String,
    pub new_push_name: String,
}

impl View for EvPushNameUpdateData {
    type V = PushNameView;

    open spec fn view(&self) -> PushNameView {
        PushNameView {
            jid: self.jid@,
            message: self.message@,
            old_push_name: self.old_push_name@,
            new_push_name: self.new_push_name@,
        }
    }
}

impl EvPushNameUpdateData {
    fn duplicate(&self) -> (r: Self)
        ensures
            r@ == self@,
    {
        EvPushNameUpdateData {
            jid: self.jid.duplicate(),
            message: self.message.duplicate(),
            old_push_name: self.old_push_name.clone(),
            new_push_name: self.new_push_name.clone(),
        }
    }
}

pub struct EvPushNameUpdate {
    inner: PushNameUpdate,
    data_cache: Option<EvPushNameUpdateData>,
}

impl EvPushNameUpdate {
    /// The change this event carries.
    pub closed spec fn event(self) -> PushNameUpdate {
        self.inner
    }

    #[verifier::type_invariant]
    closed spec fn cache_matches(self) -> bool {
        self.data_cache matches Some(c) ==> c@ == self.inner@
    }

    pub fn new(inner: PushNameUpdate) -> (r: Self)
        ensures
            r.event() == inner,
    {
        EvPushNameUpdate { inner, data_cache: None }
    }

    /// The payload: the contact, the message that carried the change, and
    /// the old and new names; the same on every read.
    pub fn data(&mut self) -> (r: EvPushNameUpdateData)
        ensures
            final(self).event() == old(self).event(),
            r@ == old(self).event()@,
    {
        proof { use_type_invariant(&*self); }
        match &self.data_cache {
            Some(cached) => cached.duplicate(),
            None => {
                let data = EvPushNameUpdateData {
                    jid: self.inner.jid.duplicate(),
                    message: self.inner.message.duplicate(),
                    old_push_name: self.inner.old_push_name.clone(),
                    new_push_name: self.inner.new_push_name.clone(),
                };
                let out = data.duplicate();
                self.data_cache = Some(data);
                out
            },
        }
    }
}

/// A chat was pinned or unpinned; `pinned` is what the sync action says,
/// when it says it.
pub struct PinUpdate {
    pub jid: JID,
    pub timestamp: i64,
    pub pinned: Option<bool>,
    pub from_full_sync: bool,
}

/// The value of a pin change.
pub struct PinView {
    pub jid: JidView,
    pub timestamp: i64,
    pub pinned: Option<bool>,
    pub from_full_sync: bool,
}

impl View for PinUpdate {
    type V = PinView;

    open spec fn view(&self) -> PinView {
        PinView { jid: self.jid@, timestamp: self.timestamp, pinned: self.pinned, from_full_sync: self.from_full_sync }
    }
}

/// The payload of a pin change.
pub struct PinUpdatedata {
    pub jid: JID,
    pub timestamp: i64,
    pub pinned: Option<bool>,
    pub from_full_sync: bool,
}

impl View for PinUpdatedata {
    type V = PinView;

    open spec fn view(&self) -> PinView {
        PinView { jid: self.jid@, timestamp: self.timestamp, pinned: self.pinned, from_full_sync: self.from_full_sync }
    }
}

impl PinUpdatedata {
    pub fn new(jid: JID, timestamp: i64, pinned: Option<bool>, from_full_sync: bool) -> (r: Self)
        ensures
            r == (PinUpdatedata { jid, timestamp, pinned, from_full_sync }),
    {
        PinUpdatedata { jid, timestamp, pinned, from_full_sync }
    }

    fn duplicate(&self) -> (r: Self)
        ensures
            r@ == self@,
    {
        PinUpdatedata { jid: self.jid.duplicate(), timestamp: self.timestamp, pinned: self.pinned, from_full_sync: self.from_full_sync }
    }
}

pub struct EvPinUpdate {
    inner: PinUpdate,
    data_cached: Option<PinUpdatedata>,
}

impl EvPinUpdate {
    /// The change this event carries.
    pub closed spec fn event(self) -> PinUpdate {
        self.inner
    }

    #[verifier::type_invariant]
    closed spec fn cache_matches(self) -> bool {
        self.data_cached matches Some(c) ==> c@ == self.inner@
    }

    pub fn new(inner: PinUpdate) -> (r: Self)
        ensures
            r.event() == inner,
    {
        EvPinUpdate { inner, data_cached: None }
    }

    /// The payload: the chat, the time and whether it is pinned; the same on every read.
    pub fn data(&mut self) -> (r: PinUpdatedata)
        ensures
            final(self).event() == old(self).event(),
            r@ == old(self).event()@,
    {
        proof { use_type_invariant(&*self); }
        match &self.data_cached {
            Some(cached) => cached.duplicate(),
            None => {
                let data = PinUpdatedata::new(self.inner.jid.duplicate(), self.inner.timestamp, self.inner.pinned, self.inner.from_full_sync);
                let out = data.duplicate();
                self.data_cached = Some(data);
                out
            },
        }
    }
}

/// A chat was muted or unmuted.
pub struct MuteUpdate {
    pub jid: JID,
    pub timestamp: i64,
    pub action: Vec<u8>,
    pub from_full_sync: bool,
}

impl View for MuteUpdate {
    type V = ChatActionView;

    open spec fn view(&self) -> ChatActionView {
        ChatActionView { jid: self.jid@, timestamp: self.timestamp, action: self.action@, from_full_sync: self.from_full_sync }
    }
}

/// The payload of a mute change.
pub struct MuteUpdateData {
    pub jid: JID,
    pub timestamp: i64,
    pub action: Vec<u8>,
    pub from_full_sync: bool,
}

impl View for MuteUpdateData {
    type V = ChatActionView;

    open spec fn view(&self) -> ChatActionView {
        ChatActionView { jid: self.jid@, timestamp: self.timestamp, action: self.action@, from_full_sync: self.from_full_sync }
    }
}

impl MuteUpdateData {
    pub fn new(jid: JID, timestamp: i64, action: Vec<u8>, from_full_sync: bool) -> (r: Self)
        ensures
            r == (MuteUpdateData { jid, timestamp, action, from_full_sync }),
    {
        MuteUpdateData { jid, timestamp, action, from_full_sync }
    }

    fn duplicate(&self) -> (r: Self)
        ensures
            r@ == self@,
    {
        MuteUpdateData { jid: self.jid.duplicate(), timestamp: self.timestamp, action: copy_bytes(&self.action), from_full_sync: self.from_full_sync }
    }
}

pub struct EvMuteUpdate {
    inner: MuteUpdate,
    data_cached: Option<MuteUpdateData>,
}

impl EvMuteUpdate {
    /// The change this event carries.
    pub closed spec fn event(self) -> MuteUpdate {
        self.inner
    }

    #[verifier::type_invariant]
    closed spec fn cache_matches(self) -> bool {
        self.data_cached matches Some(c) ==> c@ == self.inner@
    }

    pub fn new(inner: MuteUpdate) -> (r: Self)
        ensures
            r.event() == inner,
    {
        EvMuteUpdate { inner, data_cached: None }
    }

    /// The payload: the chat, the time and the sync action; the same on every read.
    pub fn data(&mut self) -> (r: MuteUpdateData)
        ensures
            final(self).event() == old(self).event(),
            r@ == old(self).event()@,
    {
        proof { use_type_invariant(&*self); }
        match &self.data_cached {
            Some(cached) => cached.duplicate(),
            None => {
                let data = MuteUpdateData::new(self.inner.jid.duplicate(), self.inner.timestamp, copy_bytes(&self.inner.action), self.inner.from_full_sync);
                let out = data.duplicate();
                self.data_cached = Some(data);
                out
            },
        }
    }
}

/// A chat was marked read or unread.
pub struct MarkChatAsReadUpdate {
    pub jid: JID,
    pub timestamp: i64,
    pub action: Vec<u8>,
    pub from_full_sync: bool,
}

impl View for MarkChatAsReadUpdate {
    type V = ChatActionView;

    open spec fn view(&self) -> ChatActionView {
        ChatActionView { jid: self.jid@, timestamp: self.timestamp, action: self.action@, from_full_sync: self.from_full_sync }
    }
}

/// The payload of a read-mark change.
pub struct MarkChatAsReadUpdateData {
    pub jid: JID,
    pub timestamp: i64,
    pub action: Vec<u8>,
    pub from_full_sync: bool,
}

impl View for MarkChatAsReadUpdateData {
    type V = ChatActionView;

    open spec fn view(&self) -> ChatActionView {
        ChatActionView { jid: self.jid@, timestamp: self.timestamp, action: self.action@, from_full_sync: self.from_full_sync }
    }
}

impl MarkChatAsReadUpdateData {
    pub fn new(jid: JID, timestamp: i64, action: Vec<u8>, from_full_sync: bool) -> (r: Self)
        ensures
            r == (MarkChatAsReadUpdateData { jid, timestamp, action, from_full_sync }),
    {
        MarkChatAsReadUpdateData { jid, timestamp, action, from_full_sync }
    }

    fn duplicate(&self) -> (r: Self)
        ensures
            r@ == self@,
    {
        MarkChatAsReadUpdateData {
            jid: self.jid.duplicate(),
            timestamp: self.timestamp,
            action: copy_bytes(&self.action),
            from_full_sync: self.from_full_sync,
        }
    }
}

pub struct EvMarkChatAsReadUpdate {
    inner: MarkChatAsReadUpdate,
    data_cached: Option<MarkChatAsReadUpdateData>,
}

impl EvMarkChatAsReadUpdate {
    /// The change this event carries.
    pub closed spec fn event(self) -> MarkChatAsReadUpdate {
        self.inner
    }

    #[verifier::type_invariant]
    closed spec fn cache_matches(self) -> bool {
        self.data_cached matches Some(c) ==> c@ == self.inner@
    }

    pub fn new(inner: MarkChatAsReadUpdate) -> (r: Self)
        ensures
            r.event() == inner,
    {
        EvMarkChatAsReadUpdate { inner, data_cached: None }
    }

    /// The payload: the chat, the time and the sync action; the same on every read.
    pub fn data(&mut self) -> (r: MarkChatAsReadUpdateData)
        ensures
            final(self).event() == old(self).event(),
            r@ == old(self).event()@,
    {
        proof { use_type_invariant(&*self); }
        match &self.data_cached {
            Some(cached) => cached.duplicate(),
            None => {
                let data = MarkChatAsReadUpdateData::new(
                    self.inner.jid.duplicate(),
                    self.inner.timestamp,
                    copy_bytes(&self.inner.action),
                    self.inner.from_full_sync,
                );
                let out = data.duplicate();
                self.data_cached = Some(data);
                out
            },
        }
    }
}

/// The signed key index of a device-list change; the bytes come with an
/// added device only.
pub struct KeyIndexInfo {
    pub timestamp: i64,
    pub signed_bytes: Option<Vec<u8>>,
}

/// The value of an optional byte string.
pub open spec fn opt_bytes_view(b: Option<Vec<u8>>) -> Option<Seq<u8>> {
    match b {
        Some(b) => Some(b@),
        None => None,
    }
}

/// The value of a key index.
pub struct KeyIndexView {
    pub timestamp: i64,
    pub signed_bytes: Option<Seq<u8>>,
}

impl View for KeyIndexInfo {
    type V = KeyIndexView;

    open spec fn view(&self) -> KeyIndexView {
        KeyIndexView { timestamp: self.timestamp, signed_bytes: opt_bytes_view(self.signed_bytes) }
    }
}

/// The value of an optional key index.
pub open spec fn opt_key_index_view(k: Option<KeyIndexInfo>) -> Option<KeyIndexView> {
    match k {
        Some(k) => Some(k@),
        None => None,
    }
}

impl KeyIndexInfo {
    pub fn new(timestamp: i64, signed_bytes: Option<Vec<u8>>) -> (r: Self)
        ensures
            r == (KeyIndexInfo { timestamp, signed_bytes }),
    {
        KeyIndexInfo { timestamp, signed_bytes }
    }

    fn duplicate(&self) -> (r: Self)
        ensures
            r@ == self@,
    {
        let signed_bytes = match &self.signed_bytes {
            Some(b) => Some(copy_bytes(b)),
            None => None,
        };
        KeyIndexInfo { timestamp: self.timestamp, signed_bytes }
    }
}

fn duplicate_key_index(k: &Option<KeyIndexInfo>) -> (r: Option<KeyIndexInfo>)
    ensures
        opt_key_index_view(r) == opt_key_index_view(*k),
{
    match k {
        Some(k) => Some(k.duplicate()),
        None => None,
    }
}

fn copy_devices(v: &Vec<DeviceNottificationInfo>) -> (r: Vec<DeviceNottificationInfo>)
    ensures
        r@ == v@,
{
    let mut out: Vec<DeviceNottificationInfo> = Vec::new();
    let mut i: usize = 0;
    while i < v.len()
        invariant
            i <= v@.len(),
            out@ == v@.take(i as int),
        decreases v@.len() - i,
    {
        out.push(DeviceNottificationInfo { device_id: v[i].device_id, key_index: v[i].key_index });
        assert(v@.take(i + 1) =~= v@.take(i as int).push(v@[i as int]));
        i = i + 1;
    }
    assert(v@.take(v@.len() as int) =~= v@);
    out
}

/// A user's list of devices changed.
pub struct DeviceListUpdate {
    pub user: JID,
    pub lid_user: Option<JID>,
    pub update_type: DeviceListUpdateType,
    pub devices: Vec<DeviceNottificationInfo>,
    pub key_index: Option<KeyIndexInfo>,
    pub contact_hash: Option<String>,
}

/// The value of a device-list change.
pub struct DeviceListView {
    pub user: JidView,
    pub lid_user: Option<JidView>,
    pub update_type: DeviceListUpdateType,
    pub devices: Seq<DeviceNottificationInfo>,
    pub key_index: Option<KeyIndexView>,
    pub contact_hash: Option<Seq<char>>,
}

impl View for DeviceListUpdate {
    type V = DeviceListView;

    open spec fn view(&self) -> DeviceListView {
        DeviceListView {
            user: self.user@,
            lid_user: opt_jid_view(self.lid_user),
            update_type: self.update_type,
            devices: self.devices@,
            key_index: opt_key_index_view(self.key_index),
            contact_hash: opt_text(self.contact_hash),
        }
    }
}

/// The payload of a device-list change.
pub struct DeviceListUpdateData {
    pub user: JID,
    pub lid_user: Option<JID>,
    pub update_type: DeviceListUpdateType,
    pub devices: Vec<DeviceNottificationInfo>,
    pub key_index: Option<KeyIndexInfo>,
    pub contact_hash: Option<String>,
}

impl View for DeviceListUpdateData {
    type V = DeviceListView;

    open spec fn view(&self) -> DeviceListView {
        DeviceListView {
            user: self.user@,
            lid_user: opt_jid_view(self.lid_user),
            update_type: self.update_type,
            devices: self.devices@,
            key_index: opt_key_index_view(self.key_index),
            contact_hash: opt_text(self.contact_hash),
        }
    }
}

impl DeviceListUpdateData {
    fn duplicate(&self) -> (r: Self)
        ensures
            r@ == self@,
    {
        DeviceListUpdateData {
            user: self.user.duplicate(),
            lid_user: JID::duplicate_opt(&self.lid_user),
            update_type: self.update_type,
            devices: copy_devices(&self.devices),
            key_index: duplicate_key_index(&self.key_index),
            contact_hash: duplicate_text(&self.contact_hash),
        }
    }
}

pub struct EvDeviceListUpdate {
    inner: DeviceListUpdate,
    data_cached: Option<DeviceListUpdateData>,
}

impl EvDeviceListUpdate {
    /// The change this event carries.
    pub closed spec fn event(self) -> DeviceListUpdate {
        self.inner
    }

    #[verifier::type_invariant]
    closed spec fn cache_matches(self) -> bool {
        self.data_cached matches Some(c) ==> c@ == self.inner@
    }

    pub fn new(inner: DeviceListUpdate) -> (r: Self)
        ensures
            r.event() == inner,
    {
        EvDeviceListUpdate { inner, data_cached: None }
    }

    /// The payload: whose devices, how they changed, the devices in the
    /// order received, the key index and the contact hash; the same on
    /// every read.
    pub fn data(&mut self) -> (r: DeviceListUpdateData)
        ensures
            final(self).event() == old(self).event(),
            r@ == old(self).event()@,
    {
        proof { use_type_invariant(&*self); }
        match &self.data_cached {
            Some(cached) => cached.duplicate(),
            None => {
                let data = DeviceListUpdateData {
                    user: self.inner.user.duplicate(),
                    lid_user: JID::duplicate_opt(&self.inner.lid_user),
                    update_type: self.inner.update_type,
                    devices: copy_devices(&self.inner.devices),
                    key_index: duplicate_key_index(&self.inner.key_index),
                    contact_hash: duplicate_text(&self.inner.contact_hash),
                };
                let out = data.duplicate();
                self.data_cached = Some(data);
                out
            },
        }
    }
}

/// A subscription of a business account.
pub struct BusinessSubscription {
    pub id: String,
    pub status: String,
    pub expiration_date: Option<i64>,
    pub creation_time: Option<i64>,
}

/// The value of a subscription.
pub struct SubscriptionView {
    pub id: Seq<char>,
    pub status: Seq<char>,
    pub expiration_date: Option<i64>,
    pub creation_time: Option<i64>,
}

impl View for BusinessSubscription {
    type V = SubscriptionView;

    open spec fn view(&self) -> SubscriptionView {
        SubscriptionView {
            id: self.id@,
            status: self.status@,
            expiration_date: self.expiration_date,
            creation_time: self.creation_time,
        }
    }
}

/// The values of a list of subscriptions.
pub open spec fn subscriptions_view(s: Seq<BusinessSubscription>) -> Seq<SubscriptionView> {
    s.map_values(|b: BusinessSubscription| b@)
}

fn copy_subscriptions(v: &Vec<BusinessSubscription>) -> (r: Vec<BusinessSubscription>)
    ensures
        subscriptions_view(r@) == subscriptions_view(v@),
{
    let mut out: Vec<BusinessSubscription> = Vec::new();
    let mut i: usize = 0;
    while i < v.len()
        invariant
            i <= v@.len(),
            out@.len() == i,
            forall|j: int| 0 <= j < i ==> #[trigger] out@[j]@ == v@[j]@,
        decreases v@.len() - i,
    {
        out.push(BusinessSubscription {
            id: v[i].id.clone(),
            status: v[i].status.clone(),
            expiration_date: v[i].expiration_date,
            creation_time: v[i].creation_time,
        });
        i = i + 1;
    }
    assert(subscriptions_view(out@) =~= subscriptions_view(v@));
    out
}

/// A business account's status changed.
pub struct BusinessStatusUpdate {
    pub jid: JID,
    pub update_type: BusinessStatusUpdateType,
    pub timestamp: i64,
    pub target_jid: Option<JID>,
    pub hash: Option<String>,
    pub product_ids: Vec<String>,
    pub collection_ids: Vec<String>,
    pub subscriptions: Vec<BusinessSubscription>,
}

/// The value of a business status change.
pub struct BusinessStatusView {
    pub jid: JidView,
    pub update_type: BusinessStatusUpdateType,
    pub timestamp: i64,
    pub target_jid: Option<JidView>,
    pub hash: Option<Seq<char>>,
    pub product_ids: Seq<Seq<char>>,
    pub collection_ids: Seq<Seq<char>>,
    pub subscriptions: Seq<SubscriptionView>,
}

impl View for BusinessStatusUpdate {
    type V = BusinessStatusView;

    open spec fn view(&self) -> BusinessStatusView {
        BusinessStatusView {
            jid: self.jid@,
            update_type: self.update_type,
            timestamp: self.timestamp,
            target_jid: opt_jid_view(self.target_jid),
            hash: opt_text(self.hash),
            product_ids: texts_view(self.product_ids@),
            collection_ids: texts_view(self.collection_ids@),
            subscriptions: subscriptions_view(self.subscriptions@),
        }
    }
}

/// The payload of a business status change.
pub struct BusinessStatusUpdateData {
    pub jid: JID,
    pub update_type: BusinessStatusUpdateType,
    pub timestamp: i64,
    pub target_jid: Option<JID>,
    pub hash: Option<String>,
    pub product_ids: Vec<String>,
    pub collection_ids: Vec<String>,
    pub subscriptions: Vec<BusinessSubscription>,
}

impl View for BusinessStatusUpdateData {
    type V = BusinessStatusView;

    open spec fn view(&self) -> BusinessStatusView {
        BusinessStatusView {
            jid: self.jid@,
            update_type: self.update_type,
            timestamp: self.timestamp,
            target_jid: opt_jid_view(self.target_jid),
            hash: opt_text(self.hash),
            product_ids: texts_view(self.product_ids@),
            collection_ids: texts_view(self.collection_ids@),
            subscriptions: subscriptions_view(self.subscriptions@),
        }
    }
}

impl BusinessStatusUpdateData {
    pub fn new(
        jid: JID,
        update_type: BusinessStatusUpdateType,
        timestamp: i64,
        target_jid: Option<JID>,
        hash: Option<String>,
        product_ids: Vec<String>,
        collection_ids: Vec<String>,
        subscriptions: Vec<BusinessSubscription>,
    ) -> (r: Self)
        ensures
            r == (BusinessStatusUpdateData {
                jid,
                update_type,
                timestamp,
                target_jid,
                hash,
                product_ids,
                collection_ids,
                subscriptions,
            }),
    {
        BusinessStatusUpdateData { jid, update_type, timestamp, target_jid, hash, product_ids, collection_ids, subscriptions }
    }

    fn duplicate(&self) -> (r: Self)
        ensures
            r@ == self@,
    {
        BusinessStatusUpdateData {
            jid: self.jid.duplicate(),
            update_type: self.update_type,
            timestamp: self.timestamp,
            target_jid: JID::duplicate_opt(&self.target_jid),
            hash: duplicate_text(&self.hash),
            product_ids: copy_texts(&self.product_ids),
            collection_ids: copy_texts(&self.collection_ids),
            subscriptions: copy_subscriptions(&self.subscriptions),
        }
    }
}

pub struct EvBusinessStatusUpdate {
    inner: BusinessStatusUpdate,
    data_cached: Option<BusinessStatusUpdateData>,
}

impl EvBusinessStatusUpdate {
    /// The change this event carries.
    pub closed spec fn event(self) -> BusinessStatusUpdate {
        self.inner
    }

    #[verifier::type_invariant]
    closed spec fn cache_matches(self) -> bool {
        self.data_cached matches Some(c) ==> c@ == self.inner@
    }

    pub fn new(inner: BusinessStatusUpdate) -> (r: Self)
        ensures
            r.event() == inner,
    {
        EvBusinessStatusUpdate { inner, data_cached: None }
    }

    /// The payload: the account, what changed and when, and the products,
    /// collections and subscriptions in the order received; the same on
    /// every read.
    pub fn data(&mut self) -> (r: BusinessStatusUpdateData)
        ensures
            final(self).event() == old(self).event(),
            r@ == old(self).event()@,
    {
        proof { use_type_invariant(&*self); }
        match &self.data_cached {
            Some(cached) => cached.duplicate(),
            None => {
                let data = BusinessStatusUpdateData::new(
                    self.inner.jid.duplicate(),
                    self.inner.update_type,
                    self.inner.timestamp,
                    JID::duplicate_opt(&self.inner.target_jid),
                    duplicate_text(&self.inner.hash),
                    copy_texts(&self.inner.product_ids),
                    copy_texts(&self.inner.collection_ids),
                    copy_subscriptions(&self.inner.subscriptions),
                );
                let out = data.duplicate();
                self.data_cached = Some(data);
                out
            },
        }
    }
}

} // verus!
