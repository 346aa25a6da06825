//! Registration of user callbacks per event kind. A decorator first selects
//! the event kind (`on`), then registers the decorated callback under it.
use vstd::prelude::*;

verus! {

/// The event kinds a callback can be registered for.
#[derive(Clone, Copy, Debug, PartialEq, Eq, Structural)]
pub enum DispatchEvent {
    Connected,
    Disconnected,
    LoggedOut,
    PairSuccess,
    PairError,
    PairingQrCode,
    PairingCode,
    QrScannedWithoutMultidevice,
    ClientOutDated,
    Message,
    Receipt,
    UndecryptableMessage,
    Notification,
    ChatPresence,
    Presence,
    PictureUpdate,
    UserAboutUpdate,
    JoinedGroup,
    GroupInfoUpdate,
    ContactUpdate,
    PushNameUpdate,
    SelfPushNameUpdated,
    PinUpdate,
    MuteUpdate,
    ArchiveUpdate,
    MarkChatAsReadUpdate,
    HistorySync,
    OfflineSyncPreview,
    OfflineSyncCompleted,
    DeviceListUpdate,
    BusinessStatusUpdate,
    StreamReplaced,
    TemporaryBan,
    ConnectFailure,
    StreamError,
    ContactNumberChanged,
    DisappearingModeChanged,
    ContactSyncRequested,
    ContactUpdated,
    StarUpdate,
    NewsletterLiveUpdate,
    DeleteChatUpdate,
    DeleteMessageForMeUpdate,
}

/// The number of event kinds.
pub const EVENT_KINDS: usize = 43;

/// The slot of each event kind.
pub open spec fn event_slot(e: DispatchEvent) -> int {
    match e {
        DispatchEvent::Connected => 0,
        DispatchEvent::Disconnected => 1,
        DispatchEvent::LoggedOut => 2,
        DispatchEvent::PairSuccess => 3,
        DispatchEvent::PairError => 4,
        DispatchEvent::PairingQrCode => 5,
        DispatchEvent::PairingCode => 6,
        DispatchEvent::QrScannedWithoutMultidevice => 7,
        DispatchEvent::ClientOutDated => 8,
        DispatchEvent::Message => 9,
        DispatchEvent::Receipt => 10,
        DispatchEvent::UndecryptableMessage => 11,
        DispatchEvent::Notification => 12,
        DispatchEvent::ChatPresence => 13,
        DispatchEvent::Presence => 14,
        DispatchEvent::PictureUpdate => 15,
        DispatchEvent::UserAboutUpdate => 16,
        DispatchEvent::JoinedGroup => 17,
        DispatchEvent::GroupInfoUpdate => 18,
        DispatchEvent::ContactUpdate => 19,
        DispatchEvent::PushNameUpdate => 20,
        DispatchEvent::SelfPushNameUpdated => 21,
        DispatchEvent::PinUpdate => 22,
        DispatchEvent::MuteUpdate => 23,
        DispatchEvent::ArchiveUpdate => 24,
        DispatchEvent::MarkChatAsReadUpdate => 25,
        DispatchEvent::HistorySync => 26,
        DispatchEvent::OfflineSyncPreview => 27,
        DispatchEvent::OfflineSyncCompleted => 28,
        DispatchEvent::DeviceListUpdate => 29,
        DispatchEvent::BusinessStatusUpdate => 30,
        DispatchEvent::StreamReplaced => 31,
        DispatchEvent::TemporaryBan => 32,
        DispatchEvent::ConnectFailure => 33,
        DispatchEvent::StreamError => 34,
        DispatchEvent::ContactNumberChanged => 35,
        DispatchEvent::DisappearingModeChanged => 36,
        DispatchEvent::ContactSyncRequested => 37,
        DispatchEvent::ContactUpdated => 38,
        DispatchEvent::StarUpdate => 39,
        DispatchEvent::NewsletterLiveUpdate => 40,
        DispatchEvent::DeleteChatUpdate => 41,
        DispatchEvent::DeleteMessageForMeUpdate => 42,
    }
}

/// The wire name of each event kind.
pub open spec fn event_name(e: DispatchEvent) -> Seq<char> {
    match e {
        DispatchEvent::Connected => "connected"@,
        DispatchEvent::Disconnected => "disconnected"@,
        DispatchEvent::LoggedOut => "logged_out"@,
        DispatchEvent::PairSuccess => "pair_success"@,
        DispatchEvent::PairError => "pair_error"@,
        DispatchEvent::PairingQrCode => "pairing_qr_code"@,
        DispatchEvent::PairingCode => "pairing_code"@,
        DispatchEvent::QrScannedWithoutMultidevice => "qr_scanned_without_multidevice"@,
        DispatchEvent::ClientOutDated => "client_outdated"@,
        DispatchEvent::Message => "message"@,
        DispatchEvent::Receipt => "receipt"@,
        DispatchEvent::UndecryptableMessage => "undecryptable_message"@,
        DispatchEvent::Notification => "notification"@,
        DispatchEvent::ChatPresence => "chat_presence"@,
        DispatchEvent::Presence => "presence"@,
        DispatchEvent::PictureUpdate => "picture_update"@,
        DispatchEvent::UserAboutUpdate => "user_about_update"@,
        DispatchEvent::JoinedGroup => "joined_group"@,
        DispatchEvent::GroupInfoUpdate => "group_info_update"@,
        DispatchEvent::ContactUpdate => "contact_update"@,
        DispatchEvent::PushNameUpdate => "push_name_update"@,
        DispatchEvent::SelfPushNameUpdated => "self_push_name_updated"@,
        DispatchEvent::PinUpdate => "pin_update"@,
        DispatchEvent::MuteUpdate => "mute_update"@,
        DispatchEvent::ArchiveUpdate => "archive_update"@,
        DispatchEvent::MarkChatAsReadUpdate => "mark_chat_as_read_update"@,
        DispatchEvent::HistorySync => "history_sync"@,
        DispatchEvent::OfflineSyncPreview => "offline_sync_preview"@,
        DispatchEvent::OfflineSyncCompleted => "offline_sync_completed"@,
        DispatchEvent::DeviceListUpdate => "device_list_update"@,
        DispatchEvent::BusinessStatusUpdate => "business_status_update"@,
        DispatchEvent::StreamReplaced => "stream_replaced"@,
        DispatchEvent::TemporaryBan => "temporary_ban"@,
        DispatchEvent::ConnectFailure => "connect_failure"@,
        DispatchEvent::StreamError => "stream_error"@,
        DispatchEvent::ContactNumberChanged => "contact_number_changed"@,
        DispatchEvent::DisappearingModeChanged => "disappearing_mode_changed"@,
        DispatchEvent::ContactSyncRequested => "contact_sync_requested"@,
        DispatchEvent::ContactUpdated => "contact_updated"@,
        DispatchEvent::StarUpdate => "star_update"@,
        DispatchEvent::NewsletterLiveUpdate => "newsletter_live_update"@,
        DispatchEvent::DeleteChatUpdate => "delete_chat_update"@,
        DispatchEvent::DeleteMessageForMeUpdate => "delete_message_for_me_update"@,
    }
}

impl DispatchEvent {
    /// The slot of this event kind.
    pub fn slot(&self) -> (r: usize)
        ensures
            r as int == event_slot(*self),
            r < EVENT_KINDS,
    {
        match self {
            DispatchEvent::Connected => 0,
            DispatchEvent::Disconnected => 1,
            DispatchEvent::LoggedOut => 2,
            DispatchEvent::PairSuccess => 3,
            DispatchEvent::PairError => 4,
            DispatchEvent::PairingQrCode => 5,
            DispatchEvent::PairingCode => 6,
            DispatchEvent::QrScannedWithoutMultidevice => 7,
            DispatchEvent::ClientOutDated => 8,
            DispatchEvent::Message => 9,
            DispatchEvent::Receipt => 10,
            DispatchEvent::UndecryptableMessage => 11,
            DispatchEvent::Notification => 12,
            DispatchEvent::ChatPresence => 13,
            DispatchEvent::Presence => 14,
            DispatchEvent::PictureUpdate => 15,
            DispatchEvent::UserAboutUpdate => 16,
            DispatchEvent::JoinedGroup => 17,
            DispatchEvent::GroupInfoUpdate => 18,
            DispatchEvent::ContactUpdate => 19,
            DispatchEvent::PushNameUpdate => 20,
            DispatchEvent::SelfPushNameUpdated => 21,
            DispatchEvent::PinUpdate => 22,
            DispatchEvent::MuteUpdate => 23,
            DispatchEvent::ArchiveUpdate => 24,
            DispatchEvent::MarkChatAsReadUpdate => 25,
            DispatchEvent::HistorySync => 26,
            DispatchEvent::OfflineSyncPreview => 27,
            DispatchEvent::OfflineSyncCompleted => 28,
            DispatchEvent::DeviceListUpdate => 29,
            DispatchEvent::BusinessStatusUpdate => 30,
            DispatchEvent::StreamReplaced => 31,
            DispatchEvent::TemporaryBan => 32,
            DispatchEvent::ConnectFailure => 33,
            DispatchEvent::StreamError => 34,
            DispatchEvent::ContactNumberChanged => 35,
            DispatchEvent::DisappearingModeChanged => 36,
            DispatchEvent::ContactSyncRequested => 37,
            DispatchEvent::ContactUpdated => 38,
            DispatchEvent::StarUpdate => 39,
            DispatchEvent::NewsletterLiveUpdate => 40,
            DispatchEvent::DeleteChatUpdate => 41,
            DispatchEvent::DeleteMessageForMeUpdate => 42,
        }
    }
}

/// The wire name of an event kind.
pub fn dispatch_event_name(event: DispatchEvent) -> (s: &'static str)
    ensures
        s@ == event_name(event),
{
    match event {
            DispatchEvent::Connected => "connected",
            DispatchEvent::Disconnected => "disconnected",
            DispatchEvent::LoggedOut => "logged_out",
            DispatchEvent::PairSuccess => "pair_success",
            DispatchEvent::PairError => "pair_error",
            DispatchEvent::PairingQrCode => "pairing_qr_code",
            DispatchEvent::PairingCode => "pairing_code",
            DispatchEvent::QrScannedWithoutMultidevice => "qr_scanned_without_multidevice",
            DispatchEvent::ClientOutDated => "client_outdated",
            DispatchEvent::Message => "message",
            DispatchEvent::Receipt => "receipt",
            DispatchEvent::UndecryptableMessage => "undecryptable_message",
            DispatchEvent::Notification => "notification",
            DispatchEvent::ChatPresence => "chat_presence",
            DispatchEvent::Presence => "presence",
            DispatchEvent::PictureUpdate => "picture_update",
            DispatchEvent::UserAboutUpdate => "user_about_update",
            DispatchEvent::JoinedGroup => "joined_group",
            DispatchEvent::GroupInfoUpdate => "group_info_update",
            DispatchEvent::ContactUpdate => "contact_update",
            DispatchEvent::PushNameUpdate => "push_name_update",
            DispatchEvent::SelfPushNameUpdated => "self_push_name_updated",
            DispatchEvent::PinUpdate => "pin_update",
            DispatchEvent::MuteUpdate => "mute_update",
            DispatchEvent::ArchiveUpdate => "archive_update",
            DispatchEvent::MarkChatAsReadUpdate => "mark_chat_as_read_update",
            DispatchEvent::HistorySync => "history_sync",
            DispatchEvent::OfflineSyncPreview => "offline_sync_preview",
            DispatchEvent::OfflineSyncCompleted => "offline_sync_completed",
            DispatchEvent::DeviceListUpdate => "device_list_update",
            DispatchEvent::BusinessStatusUpdate => "business_status_update",
            DispatchEvent::StreamReplaced => "stream_replaced",
            DispatchEvent::TemporaryBan => "temporary_ban",
            DispatchEvent::ConnectFailure => "connect_failure",
            DispatchEvent::StreamError => "stream_error",
            DispatchEvent::ContactNumberChanged => "contact_number_changed",
            DispatchEvent::DisappearingModeChanged => "disappearing_mode_changed",
            DispatchEvent::ContactSyncRequested => "contact_sync_requested",
            DispatchEvent::ContactUpdated => "contact_updated",
            DispatchEvent::StarUpdate => "star_update",
            DispatchEvent::NewsletterLiveUpdate => "newsletter_live_update",
            DispatchEvent::DeleteChatUpdate => "delete_chat_update",
            DispatchEvent::DeleteMessageForMeUpdate => "delete_message_for_me_update",
    }
}

/// Why a callback could not be registered.
#[derive(Clone, Copy, Debug, PartialEq, Eq, Structural)]
pub enum DispatchError {
    /// `on(event_type)` was not called before registering.
    NoPendingEvent,
}

/// The message a refused registration is reported with.
pub open spec fn dispatch_error_message(e: DispatchError) -> Seq<char> {
    match e {
        DispatchError::NoPendingEvent => "on(event_type) must be called before registering callback"@,
    }
}

impl DispatchError {
    /// The message this refusal is reported with.
    pub fn message(&self) -> (r: &'static str)
        ensures
            r@ == dispatch_error_message(*self),
    {
        match self {
            DispatchError::NoPendingEvent => "on(event_type) must be called before registering callback",
        }
    }
}

/// The registered callbacks, per event kind, and the event kind selected
/// for the next registration.
pub struct Dispatcher<H> {
    handlers: Vec<Vec<H>>,
    pending_event: Option<DispatchEvent>,
}

impl<H> Dispatcher<H> {
    /// The callbacks registered for each event kind, by slot.
    pub closed spec fn registered(self) -> Seq<Seq<H>> {
        self.handlers@.map_values(|v: Vec<H>| v@)
    }

    /// The event kind selected for the next registration.
    pub closed spec fn pending(self) -> Option<DispatchEvent> {
        self.pending_event
    }

    /// One callback list per event kind.
    pub open spec fn wf(self) -> bool {
        self.registered().len() == EVENT_KINDS
    }

    /// The callbacks registered for an event kind.
    pub open spec fn registered_for(self, e: DispatchEvent) -> Seq<H> {
        self.registered()[event_slot(e)]
    }

    /// A dispatcher with no callbacks and no selected event kind.
    pub fn empty() -> (r: Self)
        ensures
            r.wf(),
            r.registered().len() == EVENT_KINDS,
            forall|i: int| 0 <= i < EVENT_KINDS ==> #[trigger] r.registered()[i].len() == 0,
            r.pending() is None,
    {
        let mut handlers: Vec<Vec<H>> = Vec::new();
        let mut i: usize = 0;
        while i < EVENT_KINDS
            invariant
                i <= EVENT_KINDS,
                handlers@.len() == i,
                forall|j: int| 0 <= j < i ==> #[trigger] handlers@[j]@.len() == 0,
            decreases EVENT_KINDS - i,
        {
            handlers.push(Vec::new());
            i = i + 1;
        }
        Dispatcher { handlers, pending_event: None }
    }

    /// A new dispatcher: no callbacks and no selected event kind.
    pub fn new() -> (r: Self)
        ensures
            r.wf(),
            forall|i: int| 0 <= i < EVENT_KINDS ==> #[trigger] r.registered()[i].len() == 0,
            r.pending() is None,
    {
        Self::empty()
    }

    /// Selects the event kind the next registered callback is for.
    pub fn on(&mut self, event: DispatchEvent)
        requires
            old(self).wf(),
        ensures
            final(self).wf(),
            final(self).registered() == old(self).registered(),
            final(self).pending() == Some(event),
    {
        self.pending_event = Some(event);
    }

    /// The callbacks registered for an event kind, in registration order.
    pub fn handlers_for_event(&self, event: DispatchEvent) -> (r: &Vec<H>)
        requires
            self.wf(),
        ensures
            r@ == self.registered_for(event),
    {
        &self.handlers[event.slot()]
    }

    /// The callbacks to run when an event of a kind arrives; nothing when
    /// none is registered, in which case no payload need be built.
    pub fn handlers_to_notify(&self, event: DispatchEvent) -> (r: Option<&Vec<H>>)
        requires
            self.wf(),
        ensures
            self.registered_for(event).len() == 0 ==> r is None,
            self.registered_for(event).len() > 0 ==> (r matches Some(v) && v@ == self.registered_for(event)),
    {
        let handlers = self.handlers_for_event(event);
        if handlers.len() == 0 {
            None
        } else {
            Some(handlers)
        }
    }

    /// The number of callbacks registered for an event kind.
    pub fn handler_count(&self, event: DispatchEvent) -> (r: usize)
        requires
            self.wf(),
        ensures
            r == self.registered_for(event).len(),
    {
        self.handlers_for_event(event).len()
    }

    /// The callbacks for the pairing QR code event.
    pub fn pairing_qr_handlers(&self) -> (r: &Vec<H>)
        requires
            self.wf(),
        ensures
            r@ == self.registered_for(DispatchEvent::PairingQrCode),
    {
        self.handlers_for_event(DispatchEvent::PairingQrCode)
    }

    /// The callbacks for incoming messages.
    pub fn message_handlers(&self) -> (r: &Vec<H>)
        requires
            self.wf(),
        ensures
            r@ == self.registered_for(DispatchEvent::Message),
    {
        self.handlers_for_event(DispatchEvent::Message)
    }

    /// The callbacks for logouts.
    pub fn logout_handlers(&self) -> (r: &Vec<H>)
        requires
            self.wf(),
        ensures
            r@ == self.registered_for(DispatchEvent::LoggedOut),
    {
        self.handlers_for_event(DispatchEvent::LoggedOut)
    }

    /// The callbacks for established connections.
    pub fn conneccted_handlers(&self) -> (r: &Vec<H>)
        requires
            self.wf(),
        ensures
            r@ == self.registered_for(DispatchEvent::Connected),
    {
        self.handlers_for_event(DispatchEvent::Connected)
    }
}

/// Registration hands the callback back, so it needs callbacks that can
/// be handed out while a copy stays registered.
impl<H: Copy> Dispatcher<H> {
    /// Registers a callback under the selected event kind, clears the
    /// selection and hands the callback back, so that a decorator leaves the
    /// decorated name bound to it. Without a selection nothing changes and
    /// the call is refused.
    pub fn register(&mut self, func: H) -> (r: Result<H, DispatchError>)
        requires
            old(self).wf(),
        ensures
            final(self).wf(),
            match old(self).pending() {
                None => r == Err::<H, DispatchError>(DispatchError::NoPendingEvent)
                    && final(self).registered() == old(self).registered()
                    && final(self).pending() is None,
                Some(e) => r == Ok::<H, DispatchError>(func)
                    && final(self).registered() == old(self).registered().update(
                        event_slot(e),
                        old(self).registered()[event_slot(e)].push(func),
                    )
                    && final(self).pending() is None,
            },
    {
        match self.pending_event {
            None => Err(DispatchError::NoPendingEvent),
            Some(event) => {
                self.pending_event = None;
                let slot = event.slot();
                let ghost before = self.handlers@;
                let mut list: Vec<H> = Vec::new();
                self.handlers.set_and_swap(slot, &mut list);
                let ghost taken = list@;
                list.push(func);
                self.handlers.set_and_swap(slot, &mut list);
                assert(self.handlers@ =~= before.update(slot as int, self.handlers@[slot as int]));
                assert(self.registered() =~= old(self).registered().update(
                    event_slot(event),
                    old(self).registered()[event_slot(event)].push(func),
                ));
                Ok(func)
            },
        }
    }
}

/// Distinct event kinds occupy distinct slots, so registering under one kind
/// never shows up under another.
pub proof fn lemma_slots_distinct(a: DispatchEvent, b: DispatchEvent)
    requires
        a != b,
    ensures
        event_slot(a) != event_slot(b),
        0 <= event_slot(a) < EVENT_KINDS,
{
}

/// Selecting an event kind and then registering a callback appends that
/// callback to the kind's list and leaves every other kind's list as it was.
pub proof fn lemma_on_then_register<H>(before: Seq<Seq<H>>, e: DispatchEvent, other: DispatchEvent, func: H)
    requires
        before.len() == EVENT_KINDS,
        other != e,
    ensures
        before.update(event_slot(e), before[event_slot(e)].push(func))[event_slot(e)] == before[event_slot(e)].push(func),
        before.update(event_slot(e), before[event_slot(e)].push(func))[event_slot(other)] == before[event_slot(other)],
{
    lemma_slots_distinct(e, other);
}

} // verus!
