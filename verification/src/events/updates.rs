//! Event payloads of account and chat updates. Each event keeps the update as
//! the server sent it and builds its payload on first access; every later
//! access hands out a payload of the same value. Times are counted from the
//! epoch, in milliseconds where a field's name says so and in seconds
//! otherwise.
use vstd::prelude::*;
use crate::events::reasons::{connect_failure_reason_to_string, reason_text, ConnectFailureReason};
use crate::jid::{opt_jid_view, JidView, JID};
use wacore_binary::node::Node;

verus! {

#[verifier::external_type_specification]
#[verifier::external_body]
pub struct ExNode(Node);

/// The message of a failed connection without a raw stanza.
pub open spec fn connect_failure_without_node() -> Seq<char> {
    "ConnectFailure does not contain a node"@
}

/// The message of a stream error without a raw stanza.
pub open spec fn stream_error_without_node() -> Seq<char> {
    "StreamError does not contain a node"@
}

/// The server refused the connection.
pub struct EvConnectFailure {
    pub reason: String,
    pub message: String,
    /// The raw stanza the failure came with, if any.
    pub raw_node: Option<Node>,
}

impl EvConnectFailure {
    /// Builds the event; an unknown reason keeps its code in the text.
    pub fn new(reason: ConnectFailureReason, message: String, raw_node: Option<Node>) -> (r: Self)
        ensures
            r.reason@ == reason_text(reason),
            r.message == message,
            r.raw_node == raw_node,
    {
        EvConnectFailure { reason: connect_failure_reason_to_string(&reason), message, raw_node }
    }

    /// The raw stanza; refused when the failure came without one.
    pub fn node(&self) -> (r: Result<&Node, String>)
        ensures
            self.raw_node matches Some(n) ==> r == Ok::<&Node, String>(&n),
            self.raw_node is None ==> (r matches Err(m) && m@ == connect_failure_without_node()),
    {
        match &self.raw_node {
            Some(node) => Ok(node),
            None => Err(String::from_str("ConnectFailure does not contain a node")),
        }
    }
}

/// The stream to the server broke.
pub struct EvStreamError {
    pub code: String,
    /// The raw stanza the error came with, if any.
    pub raw_node: Option<Node>,
}

impl EvStreamError {
    pub fn new(code: String, raw: Option<Node>) -> (r: Self)
        ensures
            r.code == code,
            r.raw_node == raw,
    {
        EvStreamError { code, raw_node: raw }
    }

    /// The raw stanza; refused when the error came without one.
    pub fn node(&self) -> (r: Result<&Node, String>)
        ensures
            self.raw_node matches Some(n) ==> r == Ok::<&Node, String>(&n),
            self.raw_node is None ==> (r matches Err(m) && m@ == stream_error_without_node()),
    {
        match &self.raw_node {
            Some(node) => Ok(node),
            None => Err(String::from_str("StreamError does not contain a node")),
        }
    }
}

/// A notification stanza the client does not handle itself.
pub struct EvNotification {
    inner: Node,
}

impl EvNotification {
    /// The stanza this event carries.
    pub closed spec fn stanza(&self) -> Node {
        self.inner
    }

    pub fn new(inner: Node) -> (r: Self)
        ensures
            r.stanza() == inner,
    {
        EvNotification { inner }
    }

    /// The raw stanza.
    pub fn node(&self) -> (r: &Node)
        ensures
            *r == self.stanza(),
    {
        &self.inner
    }
}

/// A copy of a byte string.
pub(crate) fn copy_bytes(b: &Vec<u8>) -> (r: Vec<u8>)
    ensures
        r@ == b@,
{
    b.clone()
}

/// A contact's details changed; `timestamp_ms` in milliseconds.
pub struct ContactUpdated {
    pub jid: JID,
    pub timestamp_ms: i64,
}

/// The value of a contact-details change.
pub struct ContactUpdatedView {
    pub jid: JidView,
    pub timestamp_ms: i64,
}

impl View for ContactUpdated {
    type V = ContactUpdatedView;

    open spec fn view(&self) -> ContactUpdatedView {
        ContactUpdatedView { jid: self.jid@, timestamp_ms: self.timestamp_ms }
    }
}

/// The payload of a contact-details change.
pub struct EvContactUpdatedData {
    pub jid: JID,
    pub timestamp_ms: i64,
}

impl View for EvContactUpdatedData {
    type V = ContactUpdatedView;

    open spec fn view(&self) -> ContactUpdatedView {
        ContactUpdatedView { jid: self.jid@, timestamp_ms: self.timestamp_ms }
    }
}

impl EvContactUpdatedData {
    fn duplicate(&self) -> (r: Self)
        ensures
            r@ == self@,
    {
        EvContactUpdatedData { jid: self.jid.duplicate(), timestamp_ms: self.timestamp_ms }
    }
}

pub struct EvContactUpdated {
    inner: ContactUpdated,
    data_cache: Option<EvContactUpdatedData>,
}

impl EvContactUpdated {
    /// The change this event carries.
    pub closed spec fn event(self) -> ContactUpdated {
        self.inner
    }

    #[verifier::type_invariant]
    closed spec fn cache_matches(self) -> bool {
        self.data_cache matches Some(c) ==> c@ == self.inner@
    }

    pub fn new(inner: ContactUpdated) -> (r: Self)
        ensures
            r.event() == inner,
    {
        EvContactUpdated { inner, data_cache: None }
    }

    /// The payload: the change's contact and time, the same on every read.
    pub fn data(&mut self) -> (r: EvContactUpdatedData)
        ensures
            final(self).event() == old(self).event(),
            r@ == old(self).event()@,
    {
        proof { use_type_invariant(&*self); }
        match &self.data_cache {
            Some(cached) => cached.duplicate(),
            None => {
                let data = EvContactUpdatedData { jid: self.inner.jid.duplicate(), timestamp_ms: self.inner.timestamp_ms };
                let out = data.duplicate();
                self.data_cache = Some(data);
                out
            },
        }
    }
}

/// A contact's disappearing-messages timer changed; `duration` in seconds.
pub struct DisappearingModeChanged {
    pub from: JID,
    pub duration: u32,
    pub setting_timestamp: u64,
}

/// The value of a disappearing-messages change.
pub struct DisappearingModeChangedView {
    pub from: JidView,
    pub duration: u32,
    pub setting_timestamp: u64,
}

impl View for DisappearingModeChanged {
    type V = DisappearingModeChangedView;

    open spec fn view(&self) -> DisappearingModeChangedView {
        DisappearingModeChangedView { from: self.from@, duration: self.duration, setting_timestamp: self.setting_timestamp }
    }
}

/// The payload of a disappearing-messages change.
pub struct EvDisappearingModeChangedData {
    pub from: JID,
    pub duration: u32,
    pub setting_timestamp: u64,
}

impl View for EvDisappearingModeChangedData {
    type V = DisappearingModeChangedView;

    open spec fn view(&self) -> DisappearingModeChangedView {
        DisappearingModeChangedView { from: self.from@, duration: self.duration, setting_timestamp: self.setting_timestamp }
    }
}

impl EvDisappearingModeChangedData {
    fn duplicate(&self) -> (r: Self)
        ensures
            r@ == self@,
    {
        EvDisappearingModeChangedData { from: self.from.duplicate(), duration: self.duration, setting_timestamp: self.setting_timestamp }
    }
}

pub struct EvDisappearingModeChanged {
    inner: DisappearingModeChanged,
    data_cache: Option<EvDisappearingModeChangedData>,
}

impl EvDisappearingModeChanged {
    /// The change this event carries.
    pub closed spec fn event(self) -> DisappearingModeChanged {
        self.inner
    }

    #[verifier::type_invariant]
    closed spec fn cache_matches(self) -> bool {
        self.data_cache matches Some(c) ==> c@ == self.inner@
    }

    pub fn new(inner: DisappearingModeChanged) -> (r: Self)
        ensures
            r.event() == inner,
    {
        EvDisappearingModeChanged { inner, data_cache: None }
    }

    /// The payload: who changed the timer, to what and when; the same on every read.
    pub fn data(&mut self) -> (r: EvDisappearingModeChangedData)
        ensures
            final(self).event() == old(self).event(),
            r@ == old(self).event()@,
    {
        proof { use_type_invariant(&*self); }
        match &self.data_cache {
            Some(cached) => cached.duplicate(),
            None => {
                let data = EvDisappearingModeChangedData {
                    from: self.inner.from.duplicate(),
                    duration: self.inner.duration,
                    setting_timestamp: self.inner.setting_timestamp,
                };
                let out = data.duplicate();
                self.data_cache = Some(data);
                out
            },
        }
    }
}

/// A contact moved to another phone number; `timestamp_ms` in milliseconds.
pub struct ContactNumberChanged {
    pub old_jid: JID,
    pub new_jid: JID,
    pub old_lid: Option<JID>,
    pub new_lid: Option<JID>,
    pub timestamp_ms: i64,
}

/// The value of a phone-number change.
pub struct ContactNumberChangedView {
    pub old_jid: JidView,
    pub new_jid: JidView,
    pub old_lid: Option<JidView>,
    pub new_lid: Option<JidView>,
    pub timestamp_ms: i64,
}

impl View for ContactNumberChanged {
    type V = ContactNumberChangedView;

    open spec fn view(&self) -> ContactNumberChangedView {
        ContactNumberChangedView {
            old_jid: self.old_jid@,
            new_jid: self.new_jid@,
            old_lid: opt_jid_view(self.old_lid),
            new_lid: opt_jid_view(self.new_lid),
            timestamp_ms: self.timestamp_ms,
        }
    }
}

/// The payload of a phone-number change.
pub struct EvContactNumberChangedData {
    pub old_jid: JID,
    pub new_jid: JID,
    pub old_lid: Option<JID>,
    pub new_lid: Option<JID>,
    pub timestamp_ms: i64,
}

impl View for EvContactNumberChangedData {
    type V = ContactNumberChangedView;

    open spec fn view(&self) -> ContactNumberChangedView {
        ContactNumberChangedView {
            old_jid: self.old_jid@,
            new_jid: self.new_jid@,
            old_lid: opt_jid_view(self.old_lid),
            new_lid: opt_jid_view(self.new_lid),
            timestamp_ms: self.timestamp_ms,
        }
    }
}

impl EvContactNumberChangedData {
    fn duplicate(&self) -> (r: Self)
        ensures
            r@ == self@,
    {
        EvContactNumberChangedData {
            old_jid: self.old_jid.duplicate(),
            new_jid: self.new_jid.duplicate(),
            old_lid: JID::duplicate_opt(&self.old_lid),
            new_lid: JID::duplicate_opt(&self.new_lid),
            timestamp_ms: self.timestamp_ms,
        }
    }
}

pub struct EvContactNumberChanged {
    inner: ContactNumberChanged,
    data_cache: Option<EvContactNumberChangedData>,
}

impl EvContactNumberChanged {
    /// The change this event carries.
    pub closed spec fn event(self) -> ContactNumberChanged {
        self.inner
    }

    #[verifier::type_invariant]
    closed spec fn cache_matches(self) -> bool {
        self.data_cache matches Some(c) ==> c@ == self.inner@
    }

    pub fn new(inner: ContactNumberChanged) -> (r: Self)
        ensures
            r.event() == inner,
    {
        EvContactNumberChanged { inner, data_cache: None }
    }

    /// The payload: the old and new addresses and the time; the same on every read.
    pub fn data(&mut self) -> (r: EvContactNumberChangedData)
        ensures
            final(self).event() == old(self).event(),
            r@ == old(self).event()@,
    {
        proof { use_type_invariant(&*self); }
        match &self.data_cache {
            Some(cached) => cached.duplicate(),
            None => {
                let data = EvContactNumberChangedData {
                    old_jid: self.inner.old_jid.duplicate(),
                    new_jid: self.inner.new_jid.duplicate(),
                    old_lid: JID::duplicate_opt(&self.inner.old_lid),
                    new_lid: JID::duplicate_opt(&self.inner.new_lid),
                    timestamp_ms: self.inner.timestamp_ms,
                };
                let out = data.duplicate();
                self.data_cache = Some(data);
                out
            },
        }
    }
}

/// A message was starred or unstarred; `timestamp_ms` in milliseconds.
/// `starred` is what the sync action says, when it says it.
pub struct StarUpdate {
    pub chat_jid: JID,
    pub participant_jid: Option<JID>,
    pub message_id: String,
    pub from_me: bool,
    pub timestamp_ms: i64,
    pub from_full_sync: bool,
    pub starred: Option<bool>,
}

/// The value of a star change.
pub struct StarUpdateView {
    pub chat_jid: JidView,
    pub participant_jid: Option<JidView>,
    pub message_id: Seq<char>,
    pub from_me: bool,
    pub timestamp_ms: i64,
    pub from_full_sync: bool,
    pub starred: Option<bool>,
}

impl View for StarUpdate {
    type V = StarUpdateView;

    open spec fn view(&self) -> StarUpdateView {
        StarUpdateView {
            chat_jid: self.chat_jid@,
            participant_jid: opt_jid_view(self.participant_jid),
            message_id: self.message_id@,
            from_me: self.from_me,
            timestamp_ms: self.timestamp_ms,
            from_full_sync: self.from_full_sync,
            starred: self.starred,
        }
    }
}

/// The payload of a star change.
pub struct EvStarUpdateData {
    pub chat_jid: JID,
    pub participant_jid: Option<JID>,
    pub message_id: String,
    pub from_me: bool,
    pub timestamp_ms: i64,
    pub from_full_sync: bool,
    pub starred: Option<bool>,
}

impl View for EvStarUpdateData {
    type V = StarUpdateView;

    open spec fn view(&self) -> StarUpdateView {
        StarUpdateView {
            chat_jid: self.chat_jid@,
            participant_jid: opt_jid_view(self.participant_jid),
            message_id: self.message_id@,
            from_me: self.from_me,
            timestamp_ms: self.timestamp_ms,
            from_full_sync: self.from_full_sync,
            starred: self.starred,
        }
    }
}

impl EvStarUpdateData {
    fn duplicate(&self) -> (r: Self)
        ensures
            r@ == self@,
    {
        EvStarUpdateData {
            chat_jid: self.chat_jid.duplicate(),
            participant_jid: JID::duplicate_opt(&self.participant_jid),
            message_id: self.message_id.clone(),
            from_me: self.from_me,
            timestamp_ms: self.timestamp_ms,
            from_full_sync: self.from_full_sync,
            starred: self.starred,
        }
    }
}

pub struct EvStarUpdate {
    inner: StarUpdate,
    data_cache: Option<EvStarUpdateData>,
}

impl EvStarUpdate {
    /// The change this event carries.
    pub closed spec fn event(self) -> StarUpdate {
        self.inner
    }

    #[verifier::type_invariant]
    closed spec fn cache_matches(self) -> bool {
        self.data_cache matches Some(c) ==> c@ == self.inner@
    }

    pub fn new(inner: StarUpdate) -> (r: Self)
        ensures
            r.event() == inner,
    {
        EvStarUpdate { inner, data_cache: None }
    }

    /// The payload: which message, by whom, when and whether it is starred;
    /// the same on every read.
    pub fn data(&mut self) -> (r: EvStarUpdateData)
        ensures
            final(self).event() == old(self).event(),
            r@ == old(self).event()@,
    {
        proof { use_type_invariant(&*self); }
        match &self.data_cache {
            Some(cached) => cached.duplicate(),
            None => {
                let data = EvStarUpdateData {
                    chat_jid: self.inner.chat_jid.duplicate(),
                    participant_jid: JID::duplicate_opt(&self.inner.participant_jid),
                    message_id: self.inner.message_id.clone(),
                    from_me: self.inner.from_me,
                    timestamp_ms: self.inner.timestamp_ms,
                    from_full_sync: self.inner.from_full_sync,
                    starred: self.inner.starred,
                };
                let out = data.duplicate();
                self.data_cache = Some(data);
                out
            },
        }
    }
}

/// A message was deleted on this device only; `timestamp_ms` in
/// milliseconds, `action` the encoded sync action.
pub struct DeleteMessageForMeUpdate {
    pub chat_jid: JID,
    pub participant_jid: Option<JID>,
    pub message_id: String,
    pub from_me: bool,
    pub timestamp_ms: i64,
    pub action: Vec<u8>,
    pub from_full_sync: bool,
}

/// The value of a delete-for-me change.
pub struct DeleteMessageForMeView {
    pub chat_jid: JidView,
    pub participant_jid: Option<JidView>,
    pub message_id: Seq<char>,
    pub from_me: bool,
    pub timestamp_ms: i64,
    pub action: Seq<u8>,
    pub from_full_sync: bool,
}

impl View for DeleteMessageForMeUpdate {
    type V = DeleteMessageForMeView;

    open spec fn view(&self) -> DeleteMessageForMeView {
        DeleteMessageForMeView {
            chat_jid: self.chat_jid@,
            participant_jid: opt_jid_view(self.participant_jid),
            message_id: self.message_id@,
            from_me: self.from_me,
            timestamp_ms: self.timestamp_ms,
            action: self.action@,
            from_full_sync: self.from_full_sync,
        }
    }
}

/// The payload of a delete-for-me change.
pub struct DeleteMessageForMeUpdateData {
    pub chat_jid: JID,
    pub participant_jid: Option<JID>,
    pub message_id: String,
    pub from_me: bool,
    pub timestamp_ms: i64,
    pub action: Vec<u8>,
    pub from_full_sync: bool,
}

impl View for DeleteMessageForMeUpdateData {
    type V = DeleteMessageForMeView;

    open spec fn view(&self) -> DeleteMessageForMeView {
        DeleteMessageForMeView {
            chat_jid: self.chat_jid@,
            participant_jid: opt_jid_view(self.participant_jid),
            message_id: self.message_id@,
            from_me: self.from_me,
            timestamp_ms: self.timestamp_ms,
            action: self.action@,
            from_full_sync: self.from_full_sync,
        }
    }
}

impl DeleteMessageForMeUpdateData {
    fn duplicate(&self) -> (r: Self)
        ensures
            r@ == self@,
    {
        DeleteMessageForMeUpdateData {
            chat_jid: self.chat_jid.duplicate(),
            participant_jid: JID::duplicate_opt(&self.participant_jid),
            message_id: self.message_id.clone(),
            from_me: self.from_me,
            timestamp_ms: self.timestamp_ms,
            action: copy_bytes(&self.action),
            from_full_sync: self.from_full_sync,
        }
    }
}

pub struct EvDeleteMessageForMeUpdate {
    inner: DeleteMessageForMeUpdate,
    data_cache: Option<DeleteMessageForMeUpdateData>,
}

impl EvDeleteMessageForMeUpdate {
    /// The change this event carries.
    pub closed spec fn event(self) -> DeleteMessageForMeUpdate {
        self.inner
    }

    #[verifier::type_invariant]
    closed spec fn cache_matches(self) -> bool {
        self.data_cache matches Some(c) ==> c@ == self.inner@
    }

    pub fn new(inner: DeleteMessageForMeUpdate) -> (r: Self)
        ensures
            r.event() == inner,
    {
        EvDeleteMessageForMeUpdate { inner, data_cache: None }
    }

    /// The payload: which message, when, and the sync action; the same on every read.
    pub fn data(&mut self) -> (r: DeleteMessageForMeUpdateData)
        ensures
            final(self).event() == old(self).event(),
            r@ == old(self).event()@,
    {
        proof { use_type_invariant(&*self); }
        match &self.data_cache {
            Some(cached) => cached.duplicate(),
            None => {
                let data = DeleteMessageForMeUpdateData {
                    chat_jid: self.inner.chat_jid.duplicate(),
                    participant_jid: JID::duplicate_opt(&self.inner.participant_jid),
                    message_id: self.inner.message_id.clone(),
                    from_me: self.inner.from_me,
                    timestamp_ms: self.inner.timestamp_ms,
                    action: copy_bytes(&self.inner.action),
                    from_full_sync: self.inner.from_full_sync,
                };
                let out = data.duplicate();
                self.data_cache = Some(data);
                out
            },
        }
    }
}

/// A chat was archived or unarchived; `timestamp_ms` in milliseconds,
/// `action` the encoded sync action.
pub struct ArchiveUpdate {
    pub jid: JID,
    pub timestamp_ms: i64,
    pub action: Vec<u8>,
    pub from_full_sync: bool,
}

/// The value of a chat change that carries a sync action.
pub struct ChatActionView {
    pub jid: JidView,
    pub timestamp: i64,
    pub action: Seq<u8>,
    pub from_full_sync: bool,
}

impl View for ArchiveUpdate {
    type V = ChatActionView;

    open spec fn view(&self) -> ChatActionView {
        ChatActionView { jid: self.jid@, timestamp: self.timestamp_ms, action: self.action@, from_full_sync: self.from_full_sync }
    }
}

/// The payload of an archive change.
pub struct EvArchiveUpdateData {
    pub jid: JID,
    pub timestamp_ms: i64,
    pub action: Vec<u8>,
    pub from_full_sync: bool,
}

impl View for EvArchiveUpdateData {
    type V = ChatActionView;

    open spec fn view(&self) -> ChatActionView {
        ChatActionView { jid: self.jid@, timestamp: self.timestamp_ms, action: self.action@, from_full_sync: self.from_full_sync }
    }
}

impl EvArchiveUpdateData {
    fn duplicate(&self) -> (r: Self)
        ensures
            r@ == self@,
    {
        EvArchiveUpdateData {
            jid: self.jid.duplicate(),
            timestamp_ms: self.timestamp_ms,
            action: copy_bytes(&self.action),
            from_full_sync: self.from_full_sync,
        }
    }
}

pub struct EvArchiveUpdate {
    inner: ArchiveUpdate,
    data_cache: Option<EvArchiveUpdateData>,
}

impl EvArchiveUpdate {
    /// The change this event carries.
    pub closed spec fn event(self) -> ArchiveUpdate {
        self.inner
    }

    #[verifier::type_invariant]
    closed spec fn cache_matches(self) -> bool {
        self.data_cache matches Some(c) ==> c@ == self.inner@
    }

    pub fn new(inner: ArchiveUpdate) -> (r: Self)
        ensures
            r.event() == inner,
    {
        EvArchiveUpdate { inner, data_cache: None }
    }

    /// The payload: the chat, the time and the sync action; the same on every read.
    pub fn data(&mut self) -> (r: EvArchiveUpdateData)
        ensures
            final(self).event() == old(self).event(),
            r@ == old(self).event()@,
    {
        proof { use_type_invariant(&*self); }
        match &self.data_cache {
            Some(cached) => cached.duplicate(),
            None => {
                let data = EvArchiveUpdateData {
                    jid: self.inner.jid.duplicate(),
                    timestamp_ms: self.inner.timestamp_ms,
                    action: copy_bytes(&self.inner.action),
                    from_full_sync: self.inner.from_full_sync,
                };
                let out = data.duplicate();
                self.data_cache = Some(data);
                out
            },
        }
    }
}

/// A contact entry was changed by a sync action; `timestamp` in seconds,
/// `action` the encoded sync action.
pub struct ContactUpdate {
    pub jid: JID,
    pub timestamp: i64,
    pub action: Vec<u8>,
    pub from_full_sync: bool,
}

impl View for ContactUpdate {
    type V = ChatActionView;

    open spec fn view(&self) -> ChatActionView {
        ChatActionView { jid: self.jid@, timestamp: self.timestamp, action: self.action@, from_full_sync: self.from_full_sync }
    }
}

/// The payload of a contact-entry change.
pub struct ContactUpdateData {
    pub jid: JID,
    pub timestamp: i64,
    pub action: Vec<u8>,
    pub from_full_sync: bool,
}

impl View for ContactUpdateData {
    type V = ChatActionView;

    open spec fn view(&self) -> ChatActionView {
        ChatActionView { jid: self.jid@, timestamp: self.timestamp, action: self.action@, from_full_sync: self.from_full_sync }
    }
}

impl ContactUpdateData {
    fn duplicate(&self) -> (r: Self)
        ensures
            r@ == self@,
    {
        ContactUpdateData {
            jid: self.jid.duplicate(),
            timestamp: self.timestamp,
            action: copy_bytes(&self.action),
            from_full_sync: self.from_full_sync,
        }
    }
}

pub struct EvContactUpdate {
    inner: ContactUpdate,
    contact_cache: Option<ContactUpdateData>,
}

impl EvContactUpdate {
    /// The change this event carries.
    pub closed spec fn event(self) -> ContactUpdate {
        self.inner
    }

    #[verifier::type_invariant]
    closed spec fn cache_matches(self) -> bool {
        self.contact_cache matches Some(c) ==> c@ == self.inner@
    }

    pub fn new(inner: ContactUpdate) -> (r: Self)
        ensures
            r.event() == inner,
    {
        EvContactUpdate { inner, contact_cache: None }
    }

    /// The payload: the contact, the time and the sync action; the same on every read.
    pub fn data(&mut self) -> (r: ContactUpdateData)
        ensures
            final(self).event() == old(self).event(),
            r@ == old(self).event()@,
    {
        proof { use_type_invariant(&*self); }
        match &self.contact_cache {
            Some(cached) => cached.duplicate(),
            None => {
                let data = ContactUpdateData {
                    jid: self.inner.jid.duplicate(),
                    timestamp: self.inner.timestamp,
                    action: copy_bytes(&self.inner.action),
                    from_full_sync: self.inner.from_full_sync,
                };
                let out = data.duplicate();
                self.contact_cache = Some(data);
                out
            },
        }
    }
}

/// A chat was deleted; `timestamp` in seconds, `action` the encoded sync action.
pub struct DeleteChatUpdate {
    pub jid: JID,
    pub delete_media: bool,
    pub timestamp: i64,
    pub action: Vec<u8>,
    pub from_full_sync: bool,
}

/// The value of a chat deletion.
pub struct DeleteChatView {
    pub jid: JidView,
    pub delete_media: bool,
    pub timestamp: i64,
    pub action: Seq<u8>,
    pub from_full_sync: bool,
}

impl View for DeleteChatUpdate {
    type V = DeleteChatView;

    open spec fn view(&self) -> DeleteChatView {
        DeleteChatView {
            jid: self.jid@,
            delete_media: self.delete_media,
            timestamp: self.timestamp,
            action: self.action@,
            from_full_sync: self.from_full_sync,
        }
    }
}

/// The payload of a chat deletion.
pub struct DeleteChatUpdateData {
    pub jid: JID,
    pub delete_media: bool,
    pub timestamp: i64,
    pub action: Vec<u8>,
    pub from_full_sync: bool,
}

impl View for DeleteChatUpdateData {
    type V = DeleteChatView;

    open spec fn view(&self) -> DeleteChatView {
        DeleteChatView {
            jid: self.jid@,
            delete_media: self.delete_media,
            timestamp: self.timestamp,
            action: self.action@,
            from_full_sync: self.from_full_sync,
        }
    }
}

impl DeleteChatUpdateData {
    fn duplicate(&self) -> (r: Self)
        ensures
            r@ == self@,
    {
        DeleteChatUpdateData {
            jid: self.jid.duplicate(),
            delete_media: self.delete_media,
            timestamp: self.timestamp,
            action: copy_bytes(&self.action),
            from_full_sync: self.from_full_sync,
        }
    }
}

pub struct EvDeleteChatUpdate {
    inner: DeleteChatUpdate,
    data_cache: Option<DeleteChatUpdateData>,
}

impl EvDeleteChatUpdate {
    /// The change this event carries.
    pub closed spec fn event(self) -> DeleteChatUpdate {
        self.inner
    }

    #[verifier::type_invariant]
    closed spec fn cache_matches(self) -> bool {
        self.data_cache matches Some(c) ==> c@ == self.inner@
    }

    pub fn new(inner: DeleteChatUpdate) -> (r: Self)
        ensures
            r.event() == inner,
    {
        EvDeleteChatUpdate { inner, data_cache: None }
    }

    /// The payload: the chat, whether its media went too, the time and the
    /// sync action; the same on every read.
    pub fn data(&mut self) -> (r: DeleteChatUpdateData)
        ensures
            final(self).event() == old(self).event(),
            r@ == old(self).event()@,
    {
        proof { use_type_invariant(&*self); }
        match &self.data_cache {
            Some(cached) => cached.duplicate(),
            None => {
                let data = DeleteChatUpdateData {
                    jid: self.inner.jid.duplicate(),
                    delete_media: self.inner.delete_media,
                    timestamp: self.inner.timestamp,
                    action: copy_bytes(&self.inner.action),
                    from_full_sync: self.inner.from_full_sync,
                };
                let out = data.duplicate();
                self.data_cache = Some(data);
                out
            },
        }
    }
}

/// One reaction on a channel message and how often it was given.
pub struct NewsletterLiveUpdateReaction {
    pub code: String,
    pub count: u64,
}

/// The value of a reaction count.
pub struct ReactionView {
    pub code: Seq<char>,
    pub count: u64,
}

impl View for NewsletterLiveUpdateReaction {
    type V = ReactionView;

    open spec fn view(&self) -> ReactionView {
        ReactionView { code: self.code@, count: self.count }
    }
}

/// The values of a list of reaction counts.
pub open spec fn reactions_view(s: Seq<NewsletterLiveUpdateReaction>) -> Seq<ReactionView> {
    s.map_values(|r: NewsletterLiveUpdateReaction| r@)
}

/// The reactions on one channel message, by its server id.
pub struct NewsletterUpdateMessage {
    pub server_id: u64,
    pub reactions: Vec<NewsletterLiveUpdateReaction>,
}

/// The value of a channel message's reactions.
pub struct UpdateMessageView {
    pub server_id: u64,
    pub reactions: Seq<ReactionView>,
}

impl View for NewsletterUpdateMessage {
    type V = UpdateMessageView;

    open spec fn view(&self) -> UpdateMessageView {
        UpdateMessageView { server_id: self.server_id, reactions: reactions_view(self.reactions@) }
    }
}

/// The values of a list of channel messages.
pub open spec fn messages_view(s: Seq<NewsletterUpdateMessage>) -> Seq<UpdateMessageView> {
    s.map_values(|m: NewsletterUpdateMessage| m@)
}

fn copy_reactions(v: &Vec<NewsletterLiveUpdateReaction>) -> (r: Vec<NewsletterLiveUpdateReaction>)
    ensures
        reactions_view(r@) == reactions_view(v@),
{
    let mut out: Vec<NewsletterLiveUpdateReaction> = Vec::new();
    let mut i: usize = 0;
    while i < v.len()
        invariant
            i <= v@.len(),
            out@.len() == i,
            forall|j: int| 0 <= j < i ==> #[trigger] out@[j]@ == v@[j]@,
        decreases v@.len() - i,
    {
        out.push(NewsletterLiveUpdateReaction { code: v[i].code.clone(), count: v[i].count });
        i = i + 1;
    }
    assert(reactions_view(out@) =~= reactions_view(v@));
    out
}

fn copy_messages(v: &Vec<NewsletterUpdateMessage>) -> (r: Vec<NewsletterUpdateMessage>)
    ensures
        messages_view(r@) == messages_view(v@),
{
    let mut out: Vec<NewsletterUpdateMessage> = Vec::new();
    let mut i: usize = 0;
    while i < v.len()
        invariant
            i <= v@.len(),
            out@.len() == i,
            forall|j: int| 0 <= j < i ==> #[trigger] out@[j]@ == v@[j]@,
        decreases v@.len() - i,
    {
        out.push(NewsletterUpdateMessage { server_id: v[i].server_id, reactions: copy_reactions(&v[i].reactions) });
        i = i + 1;
    }
    assert(messages_view(out@) =~= messages_view(v@));
    out
}

/// Live reaction counts of a channel's messages.
pub struct NewsletterLiveUpdate {
    pub newsletter_jid: JID,
    pub messages: Vec<NewsletterUpdateMessage>,
}

/// The value of a live channel update.
pub struct LiveUpdateView {
    pub newsletter_jid: JidView,
    pub messages: Seq<UpdateMessageView>,
}

impl View for NewsletterLiveUpdate {
    type V = LiveUpdateView;

    open spec fn view(&self) -> LiveUpdateView {
        LiveUpdateView { newsletter_jid: self.newsletter_jid@, messages: messages_view(self.messages@) }
    }
}

/// The payload of a live channel update.
pub struct NewsletterLiveUpdateData {
    pub newsletter_jid: JID,
    pub messages: Vec<NewsletterUpdateMessage>,
}

impl View for NewsletterLiveUpdateData {
    type V = LiveUpdateView;

    open spec fn view(&self) -> LiveUpdateView {
        LiveUpdateView { newsletter_jid: self.newsletter_jid@, messages: messages_view(self.messages@) }
    }
}

impl NewsletterLiveUpdateData {
    pub fn new(newsletter_jid: JID, messages: Vec<NewsletterUpdateMessage>) -> (r: Self)
        ensures
            r.newsletter_jid == newsletter_jid,
            r.messages == messages,
    {
        NewsletterLiveUpdateData { newsletter_jid, messages }
    }

    fn duplicate(&self) -> (r: Self)
        ensures
            r@ == self@,
    {
        NewsletterLiveUpdateData { newsletter_jid: self.newsletter_jid.duplicate(), messages: copy_messages(&self.messages) }
    }
}

pub struct EvNewsletterLiveUpdate {
    inner: NewsletterLiveUpdate,
    data_cache: Option<NewsletterLiveUpdateData>,
}

impl EvNewsletterLiveUpdate {
    /// The update this event carries.
    pub closed spec fn event(self) -> NewsletterLiveUpdate {
        self.inner
    }

    #[verifier::type_invariant]
    closed spec fn cache_matches(self) -> bool {
        self.data_cache matches Some(c) ==> c@ == self.inner@
    }

    pub fn new(inner: NewsletterLiveUpdate) -> (r: Self)
        ensures
            r.event() == inner,
    {
        EvNewsletterLiveUpdate { inner, data_cache: None }
    }

    /// The payload: the channel and, message by message in the order
    /// received, each reaction with its count; the same on every read.
    pub fn data(&mut self) -> (r: NewsletterLiveUpdateData)
        ensures
            final(self).event() == old(self).event(),
            r@ == old(self).event()@,
    {
        proof { use_type_invariant(&*self); }
        match &self.data_cache {
            Some(cached) => cached.duplicate(),
            None => {
                let data = NewsletterLiveUpdateData::new(self.inner.newsletter_jid.duplicate(), copy_messages(&self.inner.messages));
                let out = data.duplicate();
                self.data_cache = Some(data);
                out
            },
        }
    }
}

} // verus!
