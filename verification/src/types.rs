//! What is known of a received message besides its content: where it came
//! from, how it was edited, bot metadata, and the results of media uploads.
use vstd::prelude::*;
use crate::jid::{jid_display, opt_jid_view, JidView, JID};
use crate::text::{push_char, push_str};
use wacore::download::MediaType as WireMediaType;

verus! {

/// The value of an optional text.
pub open spec fn opt_text(s: Option<String>) -> Option<Seq<char>> {
    match s {
        Some(s) => Some(s@),
        None => None,
    }
}

/// A copy of an optional text.
pub fn duplicate_text(s: &Option<String>) -> (r: Option<String>)
    ensures
        opt_text(r) == opt_text(*s),
{
    match s {
        Some(s) => Some(s.clone()),
        None => None,
    }
}

/// How the sender's address is written.
#[derive(Clone, Copy, Debug, PartialEq, Eq, Structural)]
pub enum AddressingMode {
    Pn,
    Lid,
}

/// The name of an addressing mode.
pub open spec fn addressing_mode_text(m: AddressingMode) -> Seq<char> {
    match m {
        AddressingMode::Pn => "pn"@,
        AddressingMode::Lid => "lid"@,
    }
}

/// Where a message came from.
pub struct MessageSource {
    pub chat: JID,
    pub sender: JID,
    pub is_from_me: bool,
    pub is_group: bool,
    pub addressing_mode: Option<AddressingMode>,
    pub sender_alt: Option<JID>,
    pub recipient_alt: Option<JID>,
    pub broadcast_list_owner: Option<JID>,
    pub recipient: Option<JID>,
}

impl MessageSource {
    /// The chat the message belongs to.
    pub fn chat(&self) -> (r: JID)
        ensures
            r@ == self.chat@,
    {
        self.chat.duplicate()
    }

    /// Who sent the message.
    pub fn sender(&self) -> (r: JID)
        ensures
            r@ == self.sender@,
    {
        self.sender.duplicate()
    }

    pub fn is_from_me(&self) -> (r: bool)
        ensures
            r == self.is_from_me,
    {
        self.is_from_me
    }

    pub fn is_group(&self) -> (r: bool)
        ensures
            r == self.is_group,
    {
        self.is_group
    }

    /// `"pn"` or `"lid"`, when the mode is known.
    pub fn addressing_mode(&self) -> (r: Option<&'static str>)
        ensures
            match self.addressing_mode {
                Some(m) => r matches Some(s) && s@ == addressing_mode_text(m),
                None => r is None,
            },
    {
        match self.addressing_mode {
            Some(AddressingMode::Pn) => Some("pn"),
            Some(AddressingMode::Lid) => Some("lid"),
            None => None,
        }
    }

    pub fn sender_alt(&self) -> (r: Option<JID>)
        ensures
            opt_jid_view(r) == opt_jid_view(self.sender_alt),
    {
        JID::duplicate_opt(&self.sender_alt)
    }

    pub fn recipient_alt(&self) -> (r: Option<JID>)
        ensures
            opt_jid_view(r) == opt_jid_view(self.recipient_alt),
    {
        JID::duplicate_opt(&self.recipient_alt)
    }

    pub fn broadcast_list_owner(&self) -> (r: Option<JID>)
        ensures
            opt_jid_view(r) == opt_jid_view(self.broadcast_list_owner),
    {
        JID::duplicate_opt(&self.broadcast_list_owner)
    }

    pub fn recipient(&self) -> (r: Option<JID>)
        ensures
            opt_jid_view(r) == opt_jid_view(self.recipient),
    {
        JID::duplicate_opt(&self.recipient)
    }

    /// `MessageSource(chat='<chat>', sender='<sender>')`, the addresses in
    /// text form.
    pub fn __repr__(&self) -> (r: String)
        ensures
            r@ == "MessageSource(chat='"@ + jid_text_of(self.chat@) + "', sender='"@ + jid_text_of(self.sender@) + seq!['\'', ')'],
    {
        let chat = self.chat.to_string();
        let sender = self.sender.to_string();
        let mut out = String::from_str("MessageSource(chat='");
        push_str(&mut out, chat.as_str());
        push_str(&mut out, "', sender='");
        push_str(&mut out, sender.as_str());
        push_char(&mut out, '\'');
        push_char(&mut out, ')');
        assert(out@ =~= "MessageSource(chat='"@ + jid_text_of(self.chat@) + "', sender='"@ + jid_text_of(self.sender@) + seq!['\'', ')']);
        out
    }
}

/// The value of a message's origin.
pub struct MessageSourceView {
    pub chat: JidView,
    pub sender: JidView,
    pub is_from_me: bool,
    pub is_group: bool,
    pub addressing_mode: Option<AddressingMode>,
    pub sender_alt: Option<JidView>,
    pub recipient_alt: Option<JidView>,
    pub broadcast_list_owner: Option<JidView>,
    pub recipient: Option<JidView>,
}

impl View for MessageSource {
    type V = MessageSourceView;

    open spec fn view(&self) -> MessageSourceView {
        MessageSourceView {
            chat: self.chat@,
            sender: self.sender@,
            is_from_me: self.is_from_me,
            is_group: self.is_group,
            addressing_mode: self.addressing_mode,
            sender_alt: opt_jid_view(self.sender_alt),
            recipient_alt: opt_jid_view(self.recipient_alt),
            broadcast_list_owner: opt_jid_view(self.broadcast_list_owner),
            recipient: opt_jid_view(self.recipient),
        }
    }
}

impl MessageSource {
    /// A copy of the origin.
    pub fn duplicate(&self) -> (r: MessageSource)
        ensures
            r@ == self@,
    {
        MessageSource {
            chat: self.chat.duplicate(),
            sender: self.sender.duplicate(),
            is_from_me: self.is_from_me,
            is_group: self.is_group,
            addressing_mode: self.addressing_mode,
            sender_alt: JID::duplicate_opt(&self.sender_alt),
            recipient_alt: JID::duplicate_opt(&self.recipient_alt),
            broadcast_list_owner: JID::duplicate_opt(&self.broadcast_list_owner),
            recipient: JID::duplicate_opt(&self.recipient),
        }
    }
}

/// The text form of an address value.
pub open spec fn jid_text_of(j: JidView) -> Seq<char> {
    jid_display(j.user, j.server, j.agent, j.device)
}

/// How a message was edited.
pub enum EditAttribute {
    AdminEdit,
    AdminRevoke,
    MessageEdit,
    PinInChat,
    SenderRevoke,
    Empty,
    /// An attribute value not known to the protocol library.
    Unknown(String),
}

/// The name of an edit attribute.
pub open spec fn edit_name(e: EditAttribute) -> Seq<char> {
    match e {
        EditAttribute::AdminEdit => "AdminEdit"@,
        EditAttribute::AdminRevoke => "AdminRevoke"@,
        EditAttribute::MessageEdit => "MessageEdit"@,
        EditAttribute::PinInChat => "PinInChat"@,
        EditAttribute::SenderRevoke => "SenderRevoke"@,
        EditAttribute::Empty => "Empty"@,
        EditAttribute::Unknown(_) => "Unknown"@,
    }
}

/// Which part of a streamed bot answer an edit is.
#[derive(Clone, Copy, Debug, PartialEq, Eq, Structural)]
pub enum BotEditType {
    First,
    Inner,
    Last,
}

/// The name of a bot edit type.
pub open spec fn bot_edit_name(t: BotEditType) -> Seq<char> {
    match t {
        BotEditType::First => "First"@,
        BotEditType::Inner => "Inner"@,
        BotEditType::Last => "Last"@,
    }
}

/// Metadata of a message written by a bot.
pub struct MsgBotInfo {
    pub edit_type: Option<BotEditType>,
    pub edit_target_id: Option<String>,
    /// When the edit was sent, in milliseconds since the epoch.
    pub edit_sender_timestamp_ms: Option<i64>,
}

impl MsgBotInfo {
    /// The name of the edit type, when there is one.
    pub fn edit_type(&self) -> (r: Option<&'static str>)
        ensures
            match self.edit_type {
                Some(t) => r matches Some(s) && s@ == bot_edit_name(t),
                None => r is None,
            },
    {
        match self.edit_type {
            Some(BotEditType::First) => Some("First"),
            Some(BotEditType::Inner) => Some("Inner"),
            Some(BotEditType::Last) => Some("Last"),
            None => None,
        }
    }

    /// The message the edit applies to.
    pub fn edit_target_id(&self) -> (r: Option<String>)
        ensures
            opt_text(r) == opt_text(self.edit_target_id),
    {
        duplicate_text(&self.edit_target_id)
    }

    /// A copy of the metadata.
    pub fn duplicate(&self) -> (r: MsgBotInfo)
        ensures
            r.edit_type == self.edit_type,
            opt_text(r.edit_target_id) == opt_text(self.edit_target_id),
            r.edit_sender_timestamp_ms == self.edit_sender_timestamp_ms,
    {
        MsgBotInfo {
            edit_type: self.edit_type,
            edit_target_id: duplicate_text(&self.edit_target_id),
            edit_sender_timestamp_ms: self.edit_sender_timestamp_ms,
        }
    }
}

/// References a message carries to other messages.
pub struct MsgMetaInfo {
    pub target_id: Option<String>,
    pub target_sender: Option<JID>,
    pub deprecated_lid_session: Option<bool>,
    pub thread_message_id: Option<String>,
    pub thread_message_sender_jid: Option<JID>,
}

/// What a message sent from one's own other device says of its
/// destination.
pub struct DeviceSentMeta {
    pub destination_jid: String,
    pub phash: String,
}

/// The envelope of a received message.
pub struct MessageInfo {
    pub id: String,
    pub message_type: String,
    pub push_name: String,
    pub source: MessageSource,
    /// Seconds since the epoch.
    pub timestamp: i64,
    pub multicast: bool,
    pub server_id: i32,
    pub media_type: String,
    pub edit: EditAttribute,
    pub bot_info: Option<MsgBotInfo>,
    pub meta_info: MsgMetaInfo,
    pub device_sent_meta: Option<DeviceSentMeta>,
}

impl MessageInfo {
    pub fn multicast(&self) -> (r: bool)
        ensures
            r == self.multicast,
    {
        self.multicast
    }

    pub fn server_id(&self) -> (r: i32)
        ensures
            r == self.server_id,
    {
        self.server_id
    }

    pub fn media_type(&self) -> (r: &str)
        ensures
            r@ == self.media_type@,
    {
        self.media_type.as_str()
    }

    /// The name of the edit attribute; every value unknown to the protocol
    /// library is `"Unknown"`.
    pub fn edit(&self) -> (r: &'static str)
        ensures
            r@ == edit_name(self.edit),
    {
        match &self.edit {
            EditAttribute::AdminEdit => "AdminEdit",
            EditAttribute::AdminRevoke => "AdminRevoke",
            EditAttribute::MessageEdit => "MessageEdit",
            EditAttribute::PinInChat => "PinInChat",
            EditAttribute::SenderRevoke => "SenderRevoke",
            EditAttribute::Empty => "Empty",
            EditAttribute::Unknown(_) => "Unknown",
        }
    }

    /// The bot metadata, when the message is from a bot.
    pub fn bot_info(&self) -> (r: Option<MsgBotInfo>)
        ensures
            self.bot_info is None ==> r is None,
            self.bot_info matches Some(b) ==> (r matches Some(c) && c.edit_type == b.edit_type
                && opt_text(c.edit_target_id) == opt_text(b.edit_target_id)
                && c.edit_sender_timestamp_ms == b.edit_sender_timestamp_ms),
    {
        match &self.bot_info {
            Some(b) => Some(b.duplicate()),
            None => None,
        }
    }

    /// The references to other messages.
    pub fn meta_info(&self) -> (r: MsgMetaInfo)
        ensures
            opt_text(r.target_id) == opt_text(self.meta_info.target_id),
            opt_jid_view(r.target_sender) == opt_jid_view(self.meta_info.target_sender),
            r.deprecated_lid_session == self.meta_info.deprecated_lid_session,
            opt_text(r.thread_message_id) == opt_text(self.meta_info.thread_message_id),
            opt_jid_view(r.thread_message_sender_jid) == opt_jid_view(self.meta_info.thread_message_sender_jid),
    {
        MsgMetaInfo {
            target_id: duplicate_text(&self.meta_info.target_id),
            target_sender: JID::duplicate_opt(&self.meta_info.target_sender),
            deprecated_lid_session: self.meta_info.deprecated_lid_session,
            thread_message_id: duplicate_text(&self.meta_info.thread_message_id),
            thread_message_sender_jid: JID::duplicate_opt(&self.meta_info.thread_message_sender_jid),
        }
    }

    /// The destination metadata of a message sent from another own device.
    pub fn device_sent_meta(&self) -> (r: Option<DeviceSentMeta>)
        ensures
            self.device_sent_meta is None ==> r is None,
            self.device_sent_meta matches Some(m) ==> (r matches Some(c) && c.destination_jid@ == m.destination_jid@
                && c.phash@ == m.phash@),
    {
        match &self.device_sent_meta {
            Some(m) => Some(DeviceSentMeta { destination_jid: m.destination_jid.clone(), phash: m.phash.clone() }),
            None => None,
        }
    }

    /// `MessageInfo(id='<id>', type='<type>', push_name='<push name>')`.
    pub fn __repr__(&self) -> (r: String)
        ensures
            r@ == "MessageInfo(id='"@ + self.id@ + "', type='"@ + self.message_type@ + "', push_name='"@
                + self.push_name@ + seq!['\'', ')'],
    {
        let mut out = String::from_str("MessageInfo(id='");
        push_str(&mut out, self.id.as_str());
        push_str(&mut out, "', type='");
        push_str(&mut out, self.message_type.as_str());
        push_str(&mut out, "', push_name='");
        push_str(&mut out, self.push_name.as_str());
        push_char(&mut out, '\'');
        push_char(&mut out, ')');
        assert(out@ =~= "MessageInfo(id='"@ + self.id@ + "', type='"@ + self.message_type@ + "', push_name='"@
            + self.push_name@ + seq!['\'', ')']);
        out
    }
}

/// The value of an edit attribute.
pub enum EditAttributeView {
    AdminEdit,
    AdminRevoke,
    MessageEdit,
    PinInChat,
    SenderRevoke,
    Empty,
    Unknown(Seq<char>),
}

impl View for EditAttribute {
    type V = EditAttributeView;

    open spec fn view(&self) -> EditAttributeView {
        match self {
            EditAttribute::AdminEdit => EditAttributeView::AdminEdit,
            EditAttribute::AdminRevoke => EditAttributeView::AdminRevoke,
            EditAttribute::MessageEdit => EditAttributeView::MessageEdit,
            EditAttribute::PinInChat => EditAttributeView::PinInChat,
            EditAttribute::SenderRevoke => EditAttributeView::SenderRevoke,
            EditAttribute::Empty => EditAttributeView::Empty,
            EditAttribute::Unknown(v) => EditAttributeView::Unknown(v@),
        }
    }
}

impl EditAttribute {
    /// A copy of the attribute.
    pub fn duplicate(&self) -> (r: EditAttribute)
        ensures
            r@ == self@,
    {
        match self {
            EditAttribute::AdminEdit => EditAttribute::AdminEdit,
            EditAttribute::AdminRevoke => EditAttribute::AdminRevoke,
            EditAttribute::MessageEdit => EditAttribute::MessageEdit,
            EditAttribute::PinInChat => EditAttribute::PinInChat,
            EditAttribute::SenderRevoke => EditAttribute::SenderRevoke,
            EditAttribute::Empty => EditAttribute::Empty,
            EditAttribute::Unknown(v) => EditAttribute::Unknown(v.clone()),
        }
    }
}

/// The value of bot metadata.
pub struct MsgBotInfoView {
    pub edit_type: Option<BotEditType>,
    pub edit_target_id: Option<Seq<char>>,
    pub edit_sender_timestamp_ms: Option<i64>,
}

impl View for MsgBotInfo {
    type V = MsgBotInfoView;

    open spec fn view(&self) -> MsgBotInfoView {
        MsgBotInfoView {
            edit_type: self.edit_type,
            edit_target_id: opt_text(self.edit_target_id),
            edit_sender_timestamp_ms: self.edit_sender_timestamp_ms,
        }
    }
}

/// The value of optional bot metadata.
pub open spec fn opt_bot_view(b: Option<MsgBotInfo>) -> Option<MsgBotInfoView> {
    match b {
        Some(b) => Some(b@),
        None => None,
    }
}

/// The value of a message's references.
pub struct MsgMetaInfoView {
    pub target_id: Option<Seq<char>>,
    pub target_sender: Option<JidView>,
    pub deprecated_lid_session: Option<bool>,
    pub thread_message_id: Option<Seq<char>>,
    pub thread_message_sender_jid: Option<JidView>,
}

impl View for MsgMetaInfo {
    type V = MsgMetaInfoView;

    open spec fn view(&self) -> MsgMetaInfoView {
        MsgMetaInfoView {
            target_id: opt_text(self.target_id),
            target_sender: opt_jid_view(self.target_sender),
            deprecated_lid_session: self.deprecated_lid_session,
            thread_message_id: opt_text(self.thread_message_id),
            thread_message_sender_jid: opt_jid_view(self.thread_message_sender_jid),
        }
    }
}

/// The value of optional destination metadata.
pub open spec fn opt_sent_meta_view(m: Option<DeviceSentMeta>) -> Option<(Seq<char>, Seq<char>)> {
    match m {
        Some(m) => Some((m.destination_jid@, m.phash@)),
        None => None,
    }
}

/// The value of a message envelope.
pub struct MessageInfoView {
    pub id: Seq<char>,
    pub message_type: Seq<char>,
    pub push_name: Seq<char>,
    pub source: MessageSourceView,
    pub timestamp: i64,
    pub multicast: bool,
    pub server_id: i32,
    pub media_type: Seq<char>,
    pub edit: EditAttributeView,
    pub bot_info: Option<MsgBotInfoView>,
    pub meta_info: MsgMetaInfoView,
    pub device_sent_meta: Option<(Seq<char>, Seq<char>)>,
}

impl View for MessageInfo {
    type V = MessageInfoView;

    open spec fn view(&self) -> MessageInfoView {
        MessageInfoView {
            id: self.id@,
            message_type: self.message_type@,
            push_name: self.push_name@,
            source: self.source@,
            timestamp: self.timestamp,
            multicast: self.multicast,
            server_id: self.server_id,
            media_type: self.media_type@,
            edit: self.edit@,
            bot_info: opt_bot_view(self.bot_info),
            meta_info: self.meta_info@,
            device_sent_meta: opt_sent_meta_view(self.device_sent_meta),
        }
    }
}

impl MessageInfo {
    /// A copy of the envelope.
    pub fn duplicate(&self) -> (r: MessageInfo)
        ensures
            r@ == self@,
    {
        MessageInfo {
            id: self.id.clone(),
            message_type: self.message_type.clone(),
            push_name: self.push_name.clone(),
            source: self.source.duplicate(),
            timestamp: self.timestamp,
            multicast: self.multicast,
            server_id: self.server_id,
            media_type: self.media_type.clone(),
            edit: self.edit.duplicate(),
            bot_info: self.bot_info(),
            meta_info: self.meta_info(),
            device_sent_meta: self.device_sent_meta(),
        }
    }
}

/// The value of an optional text that may be missing itself.
pub open spec fn opt_opt_text(s: Option<Option<String>>) -> Option<Option<Seq<char>>> {
    match s {
        Some(t) => Some(opt_text(t)),
        None => None,
    }
}

/// The text parts of a received message: for each kind of content the
/// message may carry, whether it is there and its text or caption.
pub struct MessageData {
    pub conversation: Option<String>,
    /// A text with a preview or a quote: present or not, and its text.
    pub extended_text_message: Option<Option<String>>,
    pub image_caption: Option<Option<String>>,
    pub video_caption: Option<Option<String>>,
    pub document_caption: Option<Option<String>>,
    pub info: MessageInfo,
}

/// The text inside an optional content, when both are there.
pub open spec fn inner_text(c: Option<Option<String>>) -> Option<Seq<char>> {
    match c {
        Some(Some(t)) => Some(t@),
        _ => None,
    }
}

/// The first of two optional texts that is there.
pub open spec fn first_text(a: Option<Seq<char>>, b: Option<Seq<char>>) -> Option<Seq<char>> {
    match a {
        Some(t) => Some(t),
        None => b,
    }
}

/// The value of an optional string slice.
pub open spec fn opt_str(s: Option<&str>) -> Option<Seq<char>> {
    match s {
        Some(s) => Some(s@),
        None => None,
    }
}

fn inner_str(c: &Option<Option<String>>) -> (r: Option<&str>)
    ensures
        opt_str(r) == inner_text(*c),
{
    match c {
        Some(Some(t)) => Some(t.as_str()),
        _ => None,
    }
}

impl MessageData {
    /// The plain text of the message.
    pub fn conversation(&self) -> (r: Option<&str>)
        ensures
            opt_str(r) == opt_text(self.conversation),
    {
        match &self.conversation {
            Some(t) => Some(t.as_str()),
            None => None,
        }
    }

    /// The caption of the image, else of the video, else of the document.
    pub fn caption(&self) -> (r: Option<&str>)
        ensures
            opt_str(r) == first_text(inner_text(self.image_caption), first_text(inner_text(self.video_caption),
                inner_text(self.document_caption))),
    {
        match inner_str(&self.image_caption) {
            Some(t) => Some(t),
            None => match inner_str(&self.video_caption) {
                Some(t) => Some(t),
                None => inner_str(&self.document_caption),
            },
        }
    }

    /// The text of a text message with a preview or a quote.
    pub fn get_extended_text_message(&self) -> (r: Option<&str>)
        ensures
            opt_str(r) == inner_text(self.extended_text_message),
    {
        inner_str(&self.extended_text_message)
    }

    /// The text of the message: its plain text, else the text of a text
    /// message with a preview or a quote.
    pub fn get_text(&self) -> (r: Option<&str>)
        ensures
            opt_str(r) == first_text(opt_text(self.conversation), inner_text(self.extended_text_message)),
    {
        match self.conversation() {
            Some(t) => Some(t),
            None => self.get_extended_text_message(),
        }
    }
}

/// The value of a message's text parts and envelope.
pub struct MessageDataView {
    pub conversation: Option<Seq<char>>,
    pub extended_text_message: Option<Option<Seq<char>>>,
    pub image_caption: Option<Option<Seq<char>>>,
    pub video_caption: Option<Option<Seq<char>>>,
    pub document_caption: Option<Option<Seq<char>>>,
    pub info: MessageInfoView,
}

impl View for MessageData {
    type V = MessageDataView;

    open spec fn view(&self) -> MessageDataView {
        MessageDataView {
            conversation: opt_text(self.conversation),
            extended_text_message: opt_opt_text(self.extended_text_message),
            image_caption: opt_opt_text(self.image_caption),
            video_caption: opt_opt_text(self.video_caption),
            document_caption: opt_opt_text(self.document_caption),
            info: self.info@,
        }
    }
}

fn duplicate_opt_text(c: &Option<Option<String>>) -> (r: Option<Option<String>>)
    ensures
        opt_opt_text(r) == opt_opt_text(*c),
{
    match c {
        Some(t) => Some(duplicate_text(t)),
        None => None,
    }
}

impl MessageData {
    /// The envelope of the message.
    pub fn message_info(&self) -> (r: MessageInfo)
        ensures
            r@ == self.info@,
    {
        self.info.duplicate()
    }

    /// A copy of the text parts and envelope.
    pub fn duplicate(&self) -> (r: MessageData)
        ensures
            r@ == self@,
    {
        MessageData {
            conversation: duplicate_text(&self.conversation),
            extended_text_message: duplicate_opt_text(&self.extended_text_message),
            image_caption: duplicate_opt_text(&self.image_caption),
            video_caption: duplicate_opt_text(&self.video_caption),
            document_caption: duplicate_opt_text(&self.document_caption),
            info: self.info.duplicate(),
        }
    }
}

/// Where an uploaded file can be fetched and how to decrypt it.
pub struct UploadResponse {
    pub url: String,
    pub direct_path: String,
    pub media_key: Vec<u8>,
    pub file_enc_sha256: Vec<u8>,
    pub file_sha256: Vec<u8>,
    pub file_length: u64,
}

/// The kinds of media that can be uploaded.
#[derive(Clone, Copy, Debug, PartialEq, Eq, Structural)]
pub enum MediaType {
    Image,
    Video,
    Audio,
    Document,
    History,
    AppState,
    Sticker,
    StickerPack,
    LinkThumbnail,
}

#[verifier::external_type_specification]
#[verifier::external_body]
pub struct ExWireMediaType(WireMediaType);

/// The protocol library's media type for each of the library's.
pub uninterp spec fn wire_media_type(kind: MediaType) -> WireMediaType;

/// The variant of `wacore::download::MediaType` with the same name (one arm
/// per variant). The contract names the result, which depends on the kind
/// alone, and states that no other kind has the same one; the protocol
/// library's enum is opaque here, so which variant it is is left unsaid.
#[verifier::external_body]
fn wire_media_type_of(kind: MediaType) -> (r: WireMediaType)
    ensures
        r == wire_media_type(kind),
        forall|other: MediaType| other != kind ==> #[trigger] wire_media_type(other) != r,
{
    match kind {
        MediaType::Image => WireMediaType::Image,
        MediaType::Video => WireMediaType::Video,
        MediaType::Audio => WireMediaType::Audio,
        MediaType::Document => WireMediaType::Document,
        MediaType::History => WireMediaType::History,
        MediaType::AppState => WireMediaType::AppState,
        MediaType::Sticker => WireMediaType::Sticker,
        MediaType::StickerPack => WireMediaType::StickerPack,
        MediaType::LinkThumbnail => WireMediaType::LinkThumbnail,
    }
}

impl MediaType {
    /// The protocol library's media type of the same name; distinct kinds
    /// give distinct types.
    pub fn to_wacore_enum(&self) -> (r: WireMediaType)
        ensures
            r == wire_media_type(*self),
            forall|other: MediaType| other != *self ==> #[trigger] wire_media_type(other) != r,
    {
        wire_media_type_of(*self)
    }
}

} // verus!
