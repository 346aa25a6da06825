//! The payload of a group notification: what happened to a group, by whom
//! and when. The event keeps the notification as the server sent it and
//! builds its payload on first access; every later access hands out a
//! payload of the same value. Times are in seconds since the epoch.
use vstd::prelude::*;
use crate::jid::{opt_jid_view, JidView, JID};
use crate::types::{duplicate_text, opt_text};
use wacore_binary::node::Node;

verus! {

/// `Node::clone`, which the stanza type derives: a deep copy of the stanza.
/// The contract claims that the copy is the same value as the original.
#[verifier::external_body]
fn copy_node(n: &Node) -> (r: Node)
    ensures
        r == *n,
{
    n.clone()
}

/// A member named in a group notification, with their phone-number address
/// when the group uses hidden addresses.
pub struct GroupParticipant {
    pub jid: JID,
    pub phone_number: Option<JID>,
}

/// The value of a named member.
pub struct ParticipantView {
    pub jid: JidView,
    pub phone_number: Option<JidView>,
}

impl View for GroupParticipant {
    type V = ParticipantView;

    open spec fn view(&self) -> ParticipantView {
        ParticipantView { jid: self.jid@, phone_number: opt_jid_view(self.phone_number) }
    }
}

/// The values of a list of named members.
pub open spec fn participants_view(s: Seq<GroupParticipant>) -> Seq<ParticipantView> {
    s.map_values(|p: GroupParticipant| p@)
}

fn copy_participants(v: &Vec<GroupParticipant>) -> (r: Vec<GroupParticipant>)
    ensures
        participants_view(r@) == participants_view(v@),
{
    let mut out: Vec<GroupParticipant> = Vec::new();
    let mut i: usize = 0;
    while i < v.len()
        invariant
            i <= v@.len(),
            out@.len() == i,
            forall|j: int| 0 <= j < i ==> #[trigger] out@[j]@ == v@[j]@,
        decreases v@.len() - i,
    {
        out.push(GroupParticipant { jid: v[i].jid.duplicate(), phone_number: JID::duplicate_opt(&v[i].phone_number) });
        i = i + 1;
    }
    assert(participants_view(out@) =~= participants_view(v@));
    out
}

/// What a group notification says happened.
pub enum GroupNotificationAction {
    Add { participants: Vec<GroupParticipant>, reason: Option<String> },
    Remove { participants: Vec<GroupParticipant>, reason: Option<String> },
    Promote { participants: Vec<GroupParticipant> },
    Demote { participants: Vec<GroupParticipant> },
    Modify { participants: Vec<GroupParticipant> },
    Subject { subject: String, subject_owner: Option<JID>, subject_timestamp: Option<u64> },
    Description { id: String, description: Option<String> },
    Locked { threshold: Option<String> },
    Unlocked,
    Announce,
    NotAnnounce,
    Ephemeral { expiration: u32, trigger: Option<u32> },
    MembershipApprovalMode { enabled: bool },
    MemberAddMode { mode: String },
    NoFrequentlyForwarded,
    FrequentlyForwardedOk,
    Invite { code: String },
    RevokeInvite,
    GrowthLocked { expiration: u32, lock_type: String },
    GrowthUnlocked,
    Create { raw: Node },
    Delete { reason: Option<String> },
    Link { link_type: String, raw: Node },
    Unlink { unlink_type: String, unlink_reason: Option<String>, raw: Node },
    Unknown { tag: String },
}

/// The value of a group notification's action.
pub enum ActionView {
    Add { participants: Seq<ParticipantView>, reason: Option<Seq<char>> },
    Remove { participants: Seq<ParticipantView>, reason: Option<Seq<char>> },
    Promote { participants: Seq<ParticipantView> },
    Demote { participants: Seq<ParticipantView> },
    Modify { participants: Seq<ParticipantView> },
    Subject { subject: Seq<char>, subject_owner: Option<JidView>, subject_timestamp: Option<u64> },
    Description { id: Seq<char>, description: Option<Seq<char>> },
    Locked { threshold: Option<Seq<char>> },
    Unlocked,
    Announce,
    NotAnnounce,
    Ephemeral { expiration: u32, trigger: Option<u32> },
    MembershipApprovalMode { enabled: bool },
    MemberAddMode { mode: Seq<char> },
    NoFrequentlyForwarded,
    FrequentlyForwardedOk,
    Invite { code: Seq<char> },
    RevokeInvite,
    GrowthLocked { expiration: u32, lock_type: Seq<char> },
    GrowthUnlocked,
    Create { raw: Node },
    Delete { reason: Option<Seq<char>> },
    Link { link_type: Seq<char>, raw: Node },
    Unlink { unlink_type: Seq<char>, unlink_reason: Option<Seq<char>>, raw: Node },
    Unknown { tag: Seq<char> },
}

impl View for GroupNotificationAction {
    type V = ActionView;

    open spec fn view(&self) -> ActionView {
        match self {
            GroupNotificationAction::Add { participants, reason } =>
                ActionView::Add { participants: participants_view(participants@), reason: opt_text(*reason) },
            GroupNotificationAction::Remove { participants, reason } =>
                ActionView::Remove { participants: participants_view(participants@), reason: opt_text(*reason) },
            GroupNotificationAction::Promote { participants } =>
                ActionView::Promote { participants: participants_view(participants@) },
            GroupNotificationAction::Demote { participants } =>
                ActionView::Demote { participants: participants_view(participants@) },
            GroupNotificationAction::Modify { participants } =>
                ActionView::Modify { participants: participants_view(participants@) },
            GroupNotificationAction::Subject { subject, subject_owner, subject_timestamp } => ActionView::Subject {
                subject: subject@,
                subject_owner: opt_jid_view(*subject_owner),
                subject_timestamp: *subject_timestamp,
            },
            GroupNotificationAction::Description { id, description } =>
                ActionView::Description { id: id@, description: opt_text(*description) },
            GroupNotificationAction::Locked { threshold } => ActionView::Locked { threshold: opt_text(*threshold) },
            GroupNotificationAction::Unlocked => ActionView::Unlocked,
            GroupNotificationAction::Announce => ActionView::Announce,
            GroupNotificationAction::NotAnnounce => ActionView::NotAnnounce,
            GroupNotificationAction::Ephemeral { expiration, trigger } =>
                ActionView::Ephemeral { expiration: *expiration, trigger: *trigger },
            GroupNotificationAction::MembershipApprovalMode { enabled } =>
                ActionView::MembershipApprovalMode { enabled: *enabled },
            GroupNotificationAction::MemberAddMode { mode } => ActionView::MemberAddMode { mode: mode@ },
            GroupNotificationAction::NoFrequentlyForwarded => ActionView::NoFrequentlyForwarded,
            GroupNotificationAction::FrequentlyForwardedOk => ActionView::FrequentlyForwardedOk,
            GroupNotificationAction::Invite { code } => ActionView::Invite { code: code@ },
            GroupNotificationAction::RevokeInvite => ActionView::RevokeInvite,
            GroupNotificationAction::GrowthLocked { expiration, lock_type } =>
                ActionView::GrowthLocked { expiration: *expiration, lock_type: lock_type@ },
            GroupNotificationAction::GrowthUnlocked => ActionView::GrowthUnlocked,
            GroupNotificationAction::Create { raw } => ActionView::Create { raw: *raw },
            GroupNotificationAction::Delete { reason } => ActionView::Delete { reason: opt_text(*reason) },
            GroupNotificationAction::Link { link_type, raw } => ActionView::Link { link_type: link_type@, raw: *raw },
            GroupNotificationAction::Unlink { unlink_type, unlink_reason, raw } => ActionView::Unlink {
                unlink_type: unlink_type@,
                unlink_reason: opt_text(*unlink_reason),
                raw: *raw,
            },
            GroupNotificationAction::Unknown { tag } => ActionView::Unknown { tag: tag@ },
        }
    }
}

impl GroupNotificationAction {
    /// A copy of the action.
    pub fn duplicate(&self) -> (r: GroupNotificationAction)
        ensures
            r@ == self@,
    {
        match self {
            GroupNotificationAction::Add { participants, reason } =>
                GroupNotificationAction::Add { participants: copy_participants(participants), reason: duplicate_text(reason) },
            GroupNotificationAction::Remove { participants, reason } =>
                GroupNotificationAction::Remove { participants: copy_participants(participants), reason: duplicate_text(reason) },
            GroupNotificationAction::Promote { participants } =>
                GroupNotificationAction::Promote { participants: copy_participants(participants) },
            GroupNotificationAction::Demote { participants } =>
                GroupNotificationAction::Demote { participants: copy_participants(participants) },
            GroupNotificationAction::Modify { participants } =>
                GroupNotificationAction::Modify { participants: copy_participants(participants) },
            GroupNotificationAction::Subject { subject, subject_owner, subject_timestamp } => GroupNotificationAction::Subject {
                subject: subject.clone(),
                subject_owner: JID::duplicate_opt(subject_owner),
                subject_timestamp: *subject_timestamp,
            },
            GroupNotificationAction::Description { id, description } =>
                GroupNotificationAction::Description { id: id.clone(), description: duplicate_text(description) },
            GroupNotificationAction::Locked { threshold } => GroupNotificationAction::Locked { threshold: duplicate_text(threshold) },
            GroupNotificationAction::Unlocked => GroupNotificationAction::Unlocked,
            GroupNotificationAction::Announce => GroupNotificationAction::Announce,
            GroupNotificationAction::NotAnnounce => GroupNotificationAction::NotAnnounce,
            GroupNotificationAction::Ephemeral { expiration, trigger } =>
                GroupNotificationAction::Ephemeral { expiration: *expiration, trigger: *trigger },
            GroupNotificationAction::MembershipApprovalMode { enabled } =>
                GroupNotificationAction::MembershipApprovalMode { enabled: *enabled },
            GroupNotificationAction::MemberAddMode { mode } => GroupNotificationAction::MemberAddMode { mode: mode.clone() },
            GroupNotificationAction::NoFrequentlyForwarded => GroupNotificationAction::NoFrequentlyForwarded,
            GroupNotificationAction::FrequentlyForwardedOk => GroupNotificationAction::FrequentlyForwardedOk,
            GroupNotificationAction::Invite { code } => GroupNotificationAction::Invite { code: code.clone() },
            GroupNotificationAction::RevokeInvite => GroupNotificationAction::RevokeInvite,
            GroupNotificationAction::GrowthLocked { expiration, lock_type } =>
                GroupNotificationAction::GrowthLocked { expiration: *expiration, lock_type: lock_type.clone() },
            GroupNotificationAction::GrowthUnlocked => GroupNotificationAction::GrowthUnlocked,
            GroupNotificationAction::Create { raw } => GroupNotificationAction::Create { raw: copy_node(raw) },
            GroupNotificationAction::Delete { reason } => GroupNotificationAction::Delete { reason: duplicate_text(reason) },
            GroupNotificationAction::Link { link_type, raw } =>
                GroupNotificationAction::Link { link_type: link_type.clone(), raw: copy_node(raw) },
            GroupNotificationAction::Unlink { unlink_type, unlink_reason, raw } => GroupNotificationAction::Unlink {
                unlink_type: unlink_type.clone(),
                unlink_reason: duplicate_text(unlink_reason),
                raw: copy_node(raw),
            },
            GroupNotificationAction::Unknown { tag } => GroupNotificationAction::Unknown { tag: tag.clone() },
        }
    }
}

/// A group notification as the server sends it.
pub struct GroupUpdate {
    pub group_jid: JID,
    pub participant: Option<JID>,
    pub participant_pn: Option<JID>,
    pub timestamp: i64,
    pub is_lid_addressing_mode: bool,
    pub action: GroupNotificationAction,
}

/// The value of a group notification.
pub struct GroupUpdateView {
    pub group_jid: JidView,
    pub participant: Option<JidView>,
    pub participant_pn: Option<JidView>,
    pub timestamp: i64,
    pub is_lid_addressing_mode: bool,
    pub action: ActionView,
}

impl View for GroupUpdate {
    type V = GroupUpdateView;

    open spec fn view(&self) -> GroupUpdateView {
        GroupUpdateView {
            group_jid: self.group_jid@,
            participant: opt_jid_view(self.participant),
            participant_pn: opt_jid_view(self.participant_pn),
            timestamp: self.timestamp,
            is_lid_addressing_mode: self.is_lid_addressing_mode,
            action: self.action@,
        }
    }
}

/// The payload of a group notification.
pub struct GroupUpdateData {
    pub group_jid: JID,
    pub participant: Option<JID>,
    pub participant_pn: Option<JID>,
    pub timestamp: i64,
    pub is_lid_addressing_mode: bool,
    pub action: GroupNotificationAction,
}

impl View for GroupUpdateData {
    type V = GroupUpdateView;

    open spec fn view(&self) -> GroupUpdateView {
        GroupUpdateView {
            group_jid: self.group_jid@,
            participant: opt_jid_view(self.participant),
            participant_pn: opt_jid_view(self.participant_pn),
            timestamp: self.timestamp,
            is_lid_addressing_mode: self.is_lid_addressing_mode,
            action: self.action@,
        }
    }
}

impl GroupUpdateData {
    fn duplicate(&self) -> (r: Self)
        ensures
            r@ == self@,
    {
        GroupUpdateData {
            group_jid: self.group_jid.duplicate(),
            participant: JID::duplicate_opt(&self.participant),
            participant_pn: JID::duplicate_opt(&self.participant_pn),
            timestamp: self.timestamp,
            is_lid_addressing_mode: self.is_lid_addressing_mode,
            action: self.action.duplicate(),
        }
    }
}

/// Something happened to a group.
pub struct EvGroupUpdate {
    inner: GroupUpdate,
    data_cache: Option<GroupUpdateData>,
}

impl EvGroupUpdate {
    /// The notification this event carries.
    pub closed spec fn event(self) -> GroupUpdate {
        self.inner
    }

    #[verifier::type_invariant]
    closed spec fn cache_matches(self) -> bool {
        self.data_cache matches Some(c) ==> c@ == self.inner@
    }

    pub fn new(inner: GroupUpdate) -> (r: Self)
        ensures
            r.event() == inner,
    {
        EvGroupUpdate { inner, data_cache: None }
    }

    /// The payload: the group, who acted (and their phone-number address),
    /// when, the addressing mode and the action with its members in the
    /// order received; the same on every read.
    pub fn data(&mut self) -> (r: GroupUpdateData)
        ensures
            final(self).event() == old(self).event(),
            r@ == old(self).event()@,
    {
        proof { use_type_invariant(&*self); }
        match &self.data_cache {
            Some(cached) => cached.duplicate(),
            None => {
                let data = GroupUpdateData {
                    group_jid: self.inner.group_jid.duplicate(),
                    participant: JID::duplicate_opt(&self.inner.participant),
                    participant_pn: JID::duplicate_opt(&self.inner.participant_pn),
                    timestamp: self.inner.timestamp,
                    is_lid_addressing_mode: self.inner.is_lid_addressing_mode,
                    action: self.inner.action.duplicate(),
                };
                let out = data.duplicate();
                self.data_cache = Some(data);
                out
            },
        }
    }
}

} // verus!
