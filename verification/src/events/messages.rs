//! Event payloads about messages, receipts, presence and pairing. Where an
//! event builds a part of its payload on first access, every later access
//! hands out a part of the same value. Times are counted from the epoch, in
//! milliseconds where a field's name says so and in seconds otherwise.
use vstd::prelude::*;
use crate::events::types::{
    chat_presence_media_text, chat_presence_text, ChatPresence, ChatPresenceMedia, DecryptFailMode, ReceiptType,
    UnavailableType,
};
use crate::jid::{opt_jid_view, JidView, JID};
use crate::types::{opt_text, duplicate_text, MessageData, MessageInfo, MessageSource};

verus! {

/// A received message: its text parts and envelope.
pub struct EvMessage {
    inner: MessageData,
    data_cache: Option<MessageData>,
}

impl EvMessage {
    /// The message this event carries.
    pub closed spec fn event(self) -> MessageData {
        self.inner
    }

    #[verifier::type_invariant]
    closed spec fn cache_matches(self) -> bool {
        self.data_cache matches Some(c) ==> c@ == self.inner@
    }

    pub fn new(inner: MessageData) -> (r: Self)
        ensures
            r.event() == inner,
    {
        EvMessage { inner, data_cache: None }
    }

    /// The payload: the message's text parts and envelope, the same on every read.
    pub fn data(&mut self) -> (r: MessageData)
        ensures
            final(self).event() == old(self).event(),
            r@ == old(self).event()@,
    {
        proof { use_type_invariant(&*self); }
        match &self.data_cache {
            Some(cached) => cached.duplicate(),
            None => {
                let data = self.inner.duplicate();
                let out = data.duplicate();
                self.data_cache = Some(data);
                out
            },
        }
    }
}

/// A receipt as the server sends it; `timestamp_ms` in milliseconds.
pub struct Receipt {
    pub source: MessageSource,
    pub message_ids: Vec<String>,
    pub timestamp_ms: i64,
    pub receipt_type: ReceiptType,
    pub message_sender: JID,
}

/// The values of a list of texts.
pub open spec fn texts_view(s: Seq<String>) -> Seq<Seq<char>> {
    s.map_values(|t: String| t@)
}

pub(crate) fn copy_texts(v: &Vec<String>) -> (r: Vec<String>)
    ensures
        texts_view(r@) == texts_view(v@),
{
    let mut out: Vec<String> = Vec::new();
    let mut i: usize = 0;
    while i < v.len()
        invariant
            i <= v@.len(),
            out@.len() == i,
            forall|j: int| 0 <= j < i ==> #[trigger] out@[j]@ == v@[j]@,
        decreases v@.len() - i,
    {
        out.push(v[i].clone());
        i = i + 1;
    }
    assert(texts_view(out@) =~= texts_view(v@));
    out
}

/// Messages were delivered, read or played.
pub struct EvReceipt {
    inner: Receipt,
    source_cache: Option<MessageSource>,
}

impl EvReceipt {
    /// The receipt this event carries.
    pub closed spec fn event(self) -> Receipt {
        self.inner
    }

    #[verifier::type_invariant]
    closed spec fn cache_matches(self) -> bool {
        self.source_cache matches Some(c) ==> c@ == self.inner.source@
    }

    pub fn new(
        inner: MessageSource,
        message_ids: Vec<String>,
        timestamp_ms: i64,
        receipt_type: ReceiptType,
        message_sender: JID,
    ) -> (r: Self)
        ensures
            r.event() == (Receipt { source: inner, message_ids, timestamp_ms, receipt_type, message_sender }),
    {
        EvReceipt { inner: Receipt { source: inner, message_ids, timestamp_ms, receipt_type, message_sender }, source_cache: None }
    }

    /// The ids of the messages the receipt is for, in the order received.
    pub fn message_ids(&self) -> (r: Vec<String>)
        ensures
            texts_view(r@) == texts_view(self.event().message_ids@),
    {
        copy_texts(&self.inner.message_ids)
    }

    pub fn timestamp_ms(&self) -> (r: i64)
        ensures
            r == self.event().timestamp_ms,
    {
        self.inner.timestamp_ms
    }

    pub fn receipt_type(&self) -> (r: ReceiptType)
        ensures
            r == self.event().receipt_type,
    {
        self.inner.receipt_type
    }

    pub fn message_sender(&self) -> (r: JID)
        ensures
            r@ == self.event().message_sender@,
    {
        self.inner.message_sender.duplicate()
    }

    /// Where the receipted messages were; always there, the same on every read.
    pub fn source(&mut self) -> (r: Option<MessageSource>)
        ensures
            final(self).event() == old(self).event(),
            r matches Some(s) && s@ == old(self).event().source@,
    {
        proof { use_type_invariant(&*self); }
        match &self.source_cache {
            Some(cached) => Some(cached.duplicate()),
            None => {
                let src = self.inner.source.duplicate();
                let out = src.duplicate();
                self.source_cache = Some(src);
                Some(out)
            },
        }
    }
}

/// A message that could not be decrypted, as the server sends it.
pub struct UndecryptableMessage {
    pub info: MessageInfo,
    pub is_unavailable: bool,
    pub unavailable_type: UnavailableType,
    pub decrypt_fail_mode: DecryptFailMode,
}

/// A message arrived that could not be decrypted.
pub struct EvUndecryptableMessage {
    inner: UndecryptableMessage,
    info_cache: Option<MessageInfo>,
}

impl EvUndecryptableMessage {
    /// The message this event carries.
    pub closed spec fn event(self) -> UndecryptableMessage {
        self.inner
    }

    #[verifier::type_invariant]
    closed spec fn cache_matches(self) -> bool {
        self.info_cache matches Some(c) ==> c@ == self.inner.info@
    }

    pub fn new(
        info_inner: MessageInfo,
        is_unavailable: bool,
        unavailable_type: UnavailableType,
        decrypt_fail_mode: DecryptFailMode,
    ) -> (r: Self)
        ensures
            r.event() == (UndecryptableMessage { info: info_inner, is_unavailable, unavailable_type, decrypt_fail_mode }),
    {
        EvUndecryptableMessage {
            inner: UndecryptableMessage { info: info_inner, is_unavailable, unavailable_type, decrypt_fail_mode },
            info_cache: None,
        }
    }

    pub fn is_unavailable(&self) -> (r: bool)
        ensures
            r == self.event().is_unavailable,
    {
        self.inner.is_unavailable
    }

    pub fn unavailable_type(&self) -> (r: UnavailableType)
        ensures
            r == self.event().unavailable_type,
    {
        self.inner.unavailable_type
    }

    pub fn decrypt_fail_mode(&self) -> (r: DecryptFailMode)
        ensures
            r == self.event().decrypt_fail_mode,
    {
        self.inner.decrypt_fail_mode
    }

    /// The envelope of the message; always there, the same on every read.
    pub fn info(&mut self) -> (r: Option<MessageInfo>)
        ensures
            final(self).event() == old(self).event(),
            r matches Some(i) && i@ == old(self).event().info@,
    {
        proof { use_type_invariant(&*self); }
        match &self.info_cache {
            Some(cached) => Some(cached.duplicate()),
            None => {
                let info = self.inner.info.duplicate();
                let out = info.duplicate();
                self.info_cache = Some(info);
                Some(out)
            },
        }
    }
}

/// Someone started or stopped typing or recording in a chat.
pub struct EvChatPresence {
    source: MessageSource,
    source_cache: Option<MessageSource>,
    state: ChatPresence,
    media: ChatPresenceMedia,
}

impl EvChatPresence {
    /// Where the typing happens.
    pub closed spec fn origin(self) -> MessageSource {
        self.source
    }

    pub closed spec fn presence(self) -> ChatPresence {
        self.state
    }

    pub closed spec fn presence_media(self) -> ChatPresenceMedia {
        self.media
    }

    #[verifier::type_invariant]
    closed spec fn cache_matches(self) -> bool {
        self.source_cache matches Some(c) ==> c@ == self.source@
    }

    pub fn new(source: MessageSource, state: ChatPresence, media: ChatPresenceMedia) -> (r: Self)
        ensures
            r.origin() == source,
            r.presence() == state,
            r.presence_media() == media,
    {
        EvChatPresence { source, source_cache: None, state, media }
    }

    /// Where the typing happens; the same on every read.
    pub fn source(&mut self) -> (r: MessageSource)
        ensures
            final(self).origin() == old(self).origin(),
            final(self).presence() == old(self).presence(),
            final(self).presence_media() == old(self).presence_media(),
            r@ == old(self).origin()@,
    {
        proof { use_type_invariant(&*self); }
        match &self.source_cache {
            Some(cached) => cached.duplicate(),
            None => {
                let src = self.source.duplicate();
                let out = src.duplicate();
                self.source_cache = Some(src);
                out
            },
        }
    }

    /// `"composing"` or `"paused"`.
    pub fn state(&self) -> (r: &'static str)
        ensures
            r@ == chat_presence_text(self.presence()),
    {
        match self.state {
            ChatPresence::Composing => "composing",
            ChatPresence::Paused => "paused",
        }
    }

    /// `"text"` or `"audio"`.
    pub fn media(&self) -> (r: &'static str)
        ensures
            r@ == chat_presence_media_text(self.presence_media()),
    {
        match self.media {
            ChatPresenceMedia::Text => "text",
            ChatPresenceMedia::Audio => "audio",
        }
    }
}

/// A contact came online or went offline; `last_seen` in seconds.
pub struct EvPresence {
    pub from: JID,
    pub unavailable: bool,
    pub last_seen: Option<i64>,
}

impl EvPresence {
    pub fn new(from: JID, unavailable: bool, last_seen: Option<i64>) -> (r: Self)
        ensures
            r == (EvPresence { from, unavailable, last_seen }),
    {
        EvPresence { from, unavailable, last_seen }
    }
}

/// A device was paired, as the server reports it.
pub struct PairSuccess {
    pub id: JID,
    pub lid: JID,
    pub business_name: String,
    pub platform: String,
}

/// The value of a pairing.
pub struct PairSuccessView {
    pub id: JidView,
    pub lid: JidView,
    pub business_name: Seq<char>,
    pub platform: Seq<char>,
}

impl View for PairSuccess {
    type V = PairSuccessView;

    open spec fn view(&self) -> PairSuccessView {
        PairSuccessView { id: self.id@, lid: self.lid@, business_name: self.business_name@, platform: self.platform@ }
    }
}

/// The payload of a pairing.
pub struct PairSuccessData {
    pub id: JID,
    pub lid: JID,
    pub business_name: String,
    pub platform: String,
}

impl View for PairSuccessData {
    type V = PairSuccessView;

    open spec fn view(&self) -> PairSuccessView {
        PairSuccessView { id: self.id@, lid: self.lid@, business_name: self.business_name@, platform: self.platform@ }
    }
}

impl PairSuccessData {
    fn duplicate(&self) -> (r: Self)
        ensures
            r@ == self@,
    {
        PairSuccessData {
            id: self.id.duplicate(),
            lid: self.lid.duplicate(),
            business_name: self.business_name.clone(),
            platform: self.platform.clone(),
        }
    }
}

/// This device was paired.
pub struct EvPairSuccess {
    inner: PairSuccess,
    data_cached: Option<PairSuccessData>,
}

impl EvPairSuccess {
    /// The pairing this event carries.
    pub closed spec fn event(self) -> PairSuccess {
        self.inner
    }

    #[verifier::type_invariant]
    closed spec fn cache_matches(self) -> bool {
        self.data_cached matches Some(c) ==> c@ == self.inner@
    }

    pub fn new(inner: PairSuccess) -> (r: Self)
        ensures
            r.event() == inner,
    {
        EvPairSuccess { inner, data_cached: None }
    }

    /// The payload: the paired addresses, business name and platform; the
    /// same on every read.
    pub fn data(&mut self) -> (r: PairSuccessData)
        ensures
            final(self).event() == old(self).event(),
            r@ == old(self).event()@,
    {
        proof { use_type_invariant(&*self); }
        match &self.data_cached {
            Some(cached) => cached.duplicate(),
            None => {
                let data = PairSuccessData {
                    id: self.inner.id.duplicate(),
                    lid: self.inner.lid.duplicate(),
                    business_name: self.inner.business_name.clone(),
                    platform: self.inner.platform.clone(),
                };
                let out = data.duplicate();
                self.data_cached = Some(data);
                out
            },
        }
    }
}

/// Pairing this device failed.
pub struct EvPairError {
    pub id: JID,
    pub lid: JID,
    pub business_name: String,
    pub platform: String,
    pub error: String,
}

impl EvPairError {
    pub fn new(id: JID, lid: JID, business_name: String, platform: String, error: String) -> (r: Self)
        ensures
            r == (EvPairError { id, lid, business_name, platform, error }),
    {
        EvPairError { id, lid, business_name, platform, error }
    }
}

/// A profile picture changed, as the server reports it; `timestamp` in seconds.
pub struct PictureUpdate {
    pub jid: JID,
    pub author: Option<JID>,
    pub timestamp: i64,
    pub removed: bool,
    pub picture_id: Option<String>,
}

/// The payload of a picture change; its time is always there.
pub struct PictureUpdateData {
    pub jid: JID,
    pub author: Option<JID>,
    pub timestamp: Option<i64>,
    pub removed: bool,
    pub picture_id: Option<String>,
}

/// The value of a picture change.
pub struct PictureView {
    pub jid: JidView,
    pub author: Option<JidView>,
    pub timestamp: Option<i64>,
    pub removed: bool,
    pub picture_id: Option<Seq<char>>,
}

impl View for PictureUpdateData {
    type V = PictureView;

    open spec fn view(&self) -> PictureView {
        PictureView {
            jid: self.jid@,
            author: opt_jid_view(self.author),
            timestamp: self.timestamp,
            removed: self.removed,
            picture_id: opt_text(self.picture_id),
        }
    }
}

/// The payload a picture change gives.
pub open spec fn picture_data_of(u: PictureUpdate) -> PictureView {
    PictureView {
        jid: u.jid@,
        author: opt_jid_view(u.author),
        timestamp: Some(u.timestamp),
        removed: u.removed,
        picture_id: opt_text(u.picture_id),
    }
}

impl PictureUpdateData {
    fn duplicate(&self) -> (r: Self)
        ensures
            r@ == self@,
    {
        PictureUpdateData {
            jid: self.jid.duplicate(),
            author: JID::duplicate_opt(&self.author),
            timestamp: self.timestamp,
            removed: self.removed,
            picture_id: duplicate_text(&self.picture_id),
        }
    }
}

/// A profile picture changed.
pub struct EvPictureUpdate {
    inner: PictureUpdate,
    data_cached: Option<PictureUpdateData>,
}

impl EvPictureUpdate {
    /// The change this event carries.
    pub closed spec fn event(self) -> PictureUpdate {
        self.inner
    }

    #[verifier::type_invariant]
    closed spec fn cache_matches(self) -> bool {
        self.data_cached matches Some(c) ==> c@ == picture_data_of(self.inner)
    }

    pub fn new(inner: PictureUpdate) -> (r: Self)
        ensures
            r.event() == inner,
    {
        EvPictureUpdate { inner, data_cached: None }
    }

    /// The payload: whose picture, changed by whom and when, whether it was
    /// removed and the new picture's id; the same on every read.
    pub fn data(&mut self) -> (r: PictureUpdateData)
        ensures
            final(self).event() == old(self).event(),
            r@ == picture_data_of(old(self).event()),
    {
        proof { use_type_invariant(&*self); }
        match &self.data_cached {
            Some(cached) => cached.duplicate(),
            None => {
                let data = PictureUpdateData {
                    jid: self.inner.jid.duplicate(),
                    author: JID::duplicate_opt(&self.inner.author),
                    timestamp: Some(self.inner.timestamp),
                    removed: self.inner.removed,
                    picture_id: duplicate_text(&self.inner.picture_id),
                };
                let out = data.duplicate();
                self.data_cached = Some(data);
                out
            },
        }
    }
}

/// A contact's about text changed, as the server reports it; `timestamp` in seconds.
pub struct UserAboutUpdate {
    pub jid: JID,
    pub status: String,
    pub timestamp: i64,
}

/// The payload of an about-text change; its time is always there.
pub struct UserAboutUpdateData {
    pub jid: JID,
    pub status: String,
    pub timestamp: Option<i64>,
}

/// The value of an about-text change.
pub struct AboutView {
    pub jid: JidView,
    pub status: Seq<char>,
    pub timestamp: Option<i64>,
}

impl View for UserAboutUpdateData {
    type V = AboutView;

    open spec fn view(&self) -> AboutView {
        AboutView { jid: self.jid@, status: self.status@, timestamp: self.timestamp }
    }
}

/// The payload an about-text change gives.
pub open spec fn about_data_of(u: UserAboutUpdate) -> AboutView {
    AboutView { jid: u.jid@, status: u.status@, timestamp: Some(u.timestamp) }
}

impl UserAboutUpdateData {
    fn duplicate(&self) -> (r: Self)
        ensures
            r@ == self@,
    {
        UserAboutUpdateData { jid: self.jid.duplicate(), status: self.status.clone(), timestamp: self.timestamp }
    }
}

/// A contact's about text changed.
pub struct EvUserAboutUpdate {
    inner: UserAboutUpdate,
    data_cached: Option<UserAboutUpdateData>,
}

impl EvUserAboutUpdate {
    /// The change this event carries.
    pub closed spec fn event(self) -> UserAboutUpdate {
        self.inner
    }

    #[verifier::type_invariant]
    closed spec fn cache_matches(self) -> bool {
        self.data_cached matches Some(c) ==> c@ == about_data_of(self.inner)
    }

    pub fn new(inner: UserAboutUpdate) -> (r: Self)
        ensures
            r.event() == inner,
    {
        EvUserAboutUpdate { inner, data_cached: None }
    }

    /// The payload: whose text, the new text and when; the same on every read.
    pub fn data(&mut self) -> (r: UserAboutUpdateData)
        ensures
            final(self).event() == old(self).event(),
            r@ == about_data_of(old(self).event()),
    {
        proof { use_type_invariant(&*self); }
        match &self.data_cached {
            Some(cached) => cached.duplicate(),
            None => {
                let data = UserAboutUpdateData {
                    jid: self.inner.jid.duplicate(),
                    status: self.inner.status.clone(),
                    timestamp: Some(self.inner.timestamp),
                };
                let out = data.duplicate();
                self.data_cached = Some(data);
                out
            },
        }
    }
}

} // verus!
