//! Helpers that need no connection: reading a group invite link, the chat
//! state, presence and status settings, and the options a group is created
//! with.
use vstd::prelude::*;
use crate::jid::JID;
use crate::text::{char_is_white_space, is_white_space};

verus! {

/// The chat state shown to a peer.
#[derive(Clone, Copy, Debug, PartialEq, Eq, Structural)]
pub enum ChatStateType {
    Composing,
    Recording,
    Paused,
}

/// Online or offline.
#[derive(Clone, Copy, Debug, PartialEq, Eq, Structural)]
pub enum PresenceStatus {
    Available,
    Unavailable,
}

/// Who receives a status update.
#[derive(Clone, Copy, Debug, PartialEq, Eq, Structural)]
pub enum StatusPrivacySetting {
    Contacts,
    AllowList,
    DenyList,
}

/// The options a status update is sent with.
#[derive(Clone, Copy, Debug, PartialEq, Eq, Structural)]
pub struct StatusSendOptions {
    pub privacy: StatusPrivacySetting,
}

/// Who may share the group's invite link.
#[derive(Clone, Copy, Debug, PartialEq, Eq, Structural)]
pub enum MemberLinkMode {
    AdminLink,
    AllMemberLink,
}

/// Who may add participants.
#[derive(Clone, Copy, Debug, PartialEq, Eq, Structural)]
pub enum MemberAddMode {
    AdminAdd,
    AllMemberAdd,
}

/// Whether join requests wait for an admin's approval.
#[derive(Clone, Copy, Debug, PartialEq, Eq, Structural)]
pub enum MembershipApprovalMode {
    Off,
    On,
}

/// A participant of a group being created.
pub struct GroupParticipantOptions {
    pub jid: JID,
    pub phone_number: Option<JID>,
    pub privacy: Option<Vec<u8>>,
}

/// The options a group is created with.
pub struct CreateGroupOptions {
    pub subject: String,
    pub participants: Vec<GroupParticipantOptions>,
    pub member_link_mode: Option<MemberLinkMode>,
    pub member_add_mode: Option<MemberAddMode>,
    pub membership_approval_mode: Option<MembershipApprovalMode>,
    pub ephemeral_expiration: Option<u32>,
    pub is_parent: bool,
    pub closed: bool,
    pub allow_non_admin_sub_group_creation: bool,
    pub create_general_chat: bool,
}

/// The text without its leading white space.
pub open spec fn trim_start_ws(s: Seq<char>) -> Seq<char>
    decreases s.len(),
{
    if s.len() > 0 && is_white_space(s[0]) {
        trim_start_ws(s.drop_first())
    } else {
        s
    }
}

/// The text without its trailing white space.
pub open spec fn trim_end_ws(s: Seq<char>) -> Seq<char>
    decreases s.len(),
{
    if s.len() > 0 && is_white_space(s.last()) {
        trim_end_ws(s.drop_last())
    } else {
        s
    }
}

/// The text without the copies of `c` it ends with.
pub open spec fn trim_end_char(s: Seq<char>, c: char) -> Seq<char>
    decreases s.len(),
{
    if s.len() > 0 && s.last() == c {
        trim_end_char(s.drop_last(), c)
    } else {
        s
    }
}

/// The text after `prefix`, when it starts with `prefix`.
pub open spec fn strip_prefix(s: Seq<char>, prefix: Seq<char>) -> Option<Seq<char>> {
    if prefix.len() <= s.len() && s.take(prefix.len() as int) == prefix {
        Some(s.skip(prefix.len() as int))
    } else {
        None
    }
}

/// The invite code in an invite link or code: white space around it and
/// trailing slashes go, and so does a leading `https://chat.whatsapp.com/`,
/// or else a leading `http://chat.whatsapp.com/`.
pub open spec fn invite_code(link: Seq<char>) -> Seq<char> {
    let v = trim_end_char(trim_end_ws(trim_start_ws(link)), '/');
    match strip_prefix(v, "https://chat.whatsapp.com/"@) {
        Some(code) => code,
        None => match strip_prefix(v, "http://chat.whatsapp.com/"@) {
            Some(code) => code,
            None => v,
        },
    }
}

/// A text is its own trim when it starts with a character other than white
/// space and ends with one that is neither white space nor `/`.
proof fn lemma_trims_keep(s: Seq<char>)
    requires
        s.len() > 0,
        !is_white_space(s[0]),
        !is_white_space(s.last()),
        s.last() != '/',
    ensures
        trim_end_char(trim_end_ws(trim_start_ws(s)), '/') == s,
{
}

/// An invite link gives back the code it carries: the code after
/// `https://chat.whatsapp.com/`, when the code has no white space around it
/// and does not end with `/`.
pub proof fn lemma_invite_link_gives_code(code: Seq<char>)
    requires
        code.len() > 0,
        !is_white_space(code[0]),
        !is_white_space(code.last()),
        code.last() != '/',
    ensures
        invite_code("https://chat.whatsapp.com/"@ + code) == code,
{
    reveal_strlit("https://chat.whatsapp.com/");
    let prefix = "https://chat.whatsapp.com/"@;
    let link = prefix + code;
    assert(link[0] == 'h');
    assert(link.last() == code.last());
    lemma_trims_keep(link);
    assert(link.take(prefix.len() as int) =~= prefix);
    assert(link.skip(prefix.len() as int) =~= code);
}

/// A bare code comes back unchanged: one with no white space around it,
/// not ending with `/`, and starting with neither link prefix.
pub proof fn lemma_bare_code_unchanged(code: Seq<char>)
    requires
        code.len() > 0,
        !is_white_space(code[0]),
        !is_white_space(code.last()),
        code.last() != '/',
        strip_prefix(code, "https://chat.whatsapp.com/"@) is None,
        strip_prefix(code, "http://chat.whatsapp.com/"@) is None,
    ensures
        invite_code(code) == code,
{
    lemma_trims_keep(code);
}

/// Whether the characters of `s` from `from` to `to` start with `prefix`.
fn starts_with_at(s: &str, from: usize, to: usize, prefix: &str) -> (r: bool)
    requires
        from <= to <= s@.len(),
    ensures
        r == (prefix@.len() <= to - from && s@.subrange(from as int, to as int).take(prefix@.len() as int) == prefix@),
{
    let plen = prefix.unicode_len();
    if plen > to - from {
        return false;
    }
    let mut k: usize = 0;
    while k < plen
        invariant
            from <= to <= s@.len(),
            plen == prefix@.len(),
            plen <= to - from,
            k <= plen,
            forall|j: int| 0 <= j < k ==> s@[from + j] == prefix@[j],
        decreases plen - k,
    {
        if s.get_char(from + k) != prefix.get_char(k) {
            assert(s@.subrange(from as int, to as int).take(plen as int)[k as int] != prefix@[k as int]);
            return false;
        }
        k = k + 1;
    }
    assert(s@.subrange(from as int, to as int).take(plen as int) =~= prefix@);
    true
}

/// Invite links and group creation options.
pub struct GroupsHelpers;

impl GroupsHelpers {
    /// The invite code of an invite link, or of a bare code.
    pub fn strip_invite_url(code: String) -> (r: String)
        ensures
            r@ == invite_code(code@),
    {
        let s = code.as_str();
        let n = s.unicode_len();
        let ghost t = s@;
        let mut a: usize = 0;
        assert(t.subrange(0, n as int) =~= t);
        while a < n && char_is_white_space(s.get_char(a))
            invariant
                n == t.len(),
                t == s@,
                a <= n,
                trim_start_ws(t) == trim_start_ws(t.subrange(a as int, n as int)),
            decreases n - a,
        {
            assert(t.subrange(a as int, n as int).drop_first() =~= t.subrange(a + 1, n as int));
            a = a + 1;
        }
        assert(trim_start_ws(t) == t.subrange(a as int, n as int)) by {
            if a < n {
                assert(t.subrange(a as int, n as int)[0] == t[a as int]);
            }
        }
        let mut b: usize = n;
        while b > a && char_is_white_space(s.get_char(b - 1))
            invariant
                n == t.len(),
                t == s@,
                a <= b <= n,
                trim_end_ws(t.subrange(a as int, n as int)) == trim_end_ws(t.subrange(a as int, b as int)),
            decreases b,
        {
            assert(t.subrange(a as int, b as int).drop_last() =~= t.subrange(a as int, b - 1));
            b = b - 1;
        }
        assert(trim_end_ws(t.subrange(a as int, b as int)) == t.subrange(a as int, b as int)) by {
            if b > a {
                assert(t.subrange(a as int, b as int).last() == t[b - 1]);
            }
        }
        let mut c: usize = b;
        while c > a && s.get_char(c - 1) == '/'
            invariant
                n == t.len(),
                t == s@,
                a <= c <= b <= n,
                trim_end_char(t.subrange(a as int, b as int), '/') == trim_end_char(t.subrange(a as int, c as int), '/'),
            decreases c,
        {
            assert(t.subrange(a as int, c as int).drop_last() =~= t.subrange(a as int, c - 1));
            c = c - 1;
        }
        assert(trim_end_char(t.subrange(a as int, c as int), '/') == t.subrange(a as int, c as int)) by {
            if c > a {
                assert(t.subrange(a as int, c as int).last() == t[c - 1]);
            }
        }
        let ghost v = t.subrange(a as int, c as int);
        assert(invite_code(t) == match strip_prefix(v, "https://chat.whatsapp.com/"@) {
            Some(code) => code,
            None => match strip_prefix(v, "http://chat.whatsapp.com/"@) {
                Some(code) => code,
                None => v,
            },
        });
        let secure = "https://chat.whatsapp.com/";
        if starts_with_at(s, a, c, secure) {
            let start = a + secure.unicode_len();
            assert(v.skip(secure@.len() as int) =~= t.subrange(start as int, c as int));
            return String::from_str(s.substring_char(start, c));
        }
        let plain = "http://chat.whatsapp.com/";
        if starts_with_at(s, a, c, plain) {
            let start = a + plain.unicode_len();
            assert(v.skip(plain@.len() as int) =~= t.subrange(start as int, c as int));
            return String::from_str(s.substring_char(start, c));
        }
        String::from_str(s.substring_char(a, c))
    }

    /// A participant entry for a group being created.
    pub fn build_participant(jid: JID, phone_number: Option<JID>, privacy: Option<Vec<u8>>) -> (r: GroupParticipantOptions)
        ensures
            r.jid == jid,
            r.phone_number == phone_number,
            r.privacy == privacy,
    {
        GroupParticipantOptions { jid, phone_number, privacy }
    }

    /// The options a group is created with, as given.
    pub fn build_create_options(
        subject: String,
        participants: Vec<GroupParticipantOptions>,
        member_link_mode: Option<MemberLinkMode>,
        member_add_mode: Option<MemberAddMode>,
        membership_approval_mode: Option<MembershipApprovalMode>,
        ephemeral_expiration: Option<u32>,
        is_parent: bool,
        closed: bool,
        allow_non_admin_sub_group_creation: bool,
        create_general_chat: bool,
    ) -> (r: CreateGroupOptions)
        ensures
            r.subject == subject,
            r.participants == participants,
            r.member_link_mode == member_link_mode,
            r.member_add_mode == member_add_mode,
            r.membership_approval_mode == membership_approval_mode,
            r.ephemeral_expiration == ephemeral_expiration,
            r.is_parent == is_parent,
            r.closed == closed,
            r.allow_non_admin_sub_group_creation == allow_non_admin_sub_group_creation,
            r.create_general_chat == create_general_chat,
    {
        CreateGroupOptions {
            subject,
            participants,
            member_link_mode,
            member_add_mode,
            membership_approval_mode,
            ephemeral_expiration,
            is_parent,
            closed,
            allow_non_admin_sub_group_creation,
            create_general_chat,
        }
    }

    /// The options a group is created with when only its subject is given:
    /// no participants, only admins share the link, every member may add,
    /// no approval of join requests, no disappearing messages, and a plain
    /// group rather than a community.
    pub fn default_create_options(subject: String) -> (r: CreateGroupOptions)
        ensures
            r.subject == subject,
            r.participants@.len() == 0,
            r.member_link_mode == Some(MemberLinkMode::AdminLink),
            r.member_add_mode == Some(MemberAddMode::AllMemberAdd),
            r.membership_approval_mode == Some(MembershipApprovalMode::Off),
            r.ephemeral_expiration == Some(0u32),
            !r.is_parent,
            !r.closed,
            !r.allow_non_admin_sub_group_creation,
            !r.create_general_chat,
    {
        Self::build_create_options(
            subject,
            Vec::new(),
            Some(MemberLinkMode::AdminLink),
            Some(MemberAddMode::AllMemberAdd),
            Some(MembershipApprovalMode::Off),
            Some(0),
            false,
            false,
            false,
            false,
        )
    }
}

/// The chat states one can send.
pub struct ChatstateHelpers;

impl ChatstateHelpers {
    pub fn composing() -> (r: ChatStateType)
        ensures
            r == ChatStateType::Composing,
    {
        ChatStateType::Composing
    }

    pub fn recording() -> (r: ChatStateType)
        ensures
            r == ChatStateType::Recording,
    {
        ChatStateType::Recording
    }

    pub fn paused() -> (r: ChatStateType)
        ensures
            r == ChatStateType::Paused,
    {
        ChatStateType::Paused
    }
}

/// Presence defaults.
pub struct PresenceHelpers;

impl PresenceHelpers {
    /// The presence set when none is given: available.
    pub fn default_status() -> (r: PresenceStatus)
        ensures
            r == PresenceStatus::Available,
    {
        PresenceStatus::Available
    }
}

/// Status defaults.
pub struct StatusHelpers;

impl StatusHelpers {
    /// The options a status update is sent with.
    pub fn build_send_options(privacy: StatusPrivacySetting) -> (r: StatusSendOptions)
        ensures
            r.privacy == privacy,
    {
        StatusSendOptions { privacy }
    }

    /// The audience of a status update when none is given: the contacts.
    pub fn default_privacy() -> (r: StatusPrivacySetting)
        ensures
            r == StatusPrivacySetting::Contacts,
    {
        StatusPrivacySetting::Contacts
    }
}

/// The protocol encoding of a message whose only content is the text
/// `text` (its `conversation` field).
pub uninterp spec fn conversation_message_encoding(text: Seq<char>) -> Seq<u8>;

/// `buffa::Message::encode_to_vec` on a `waproto` message that holds only
/// the `conversation` text. The contract names the result, a function of the
/// text; it asks for a text short enough that the encoding stays under the
/// 2 GiB limit past which the encoder panics: a character takes at most 4
/// bytes, and the field's tag and length at most 6 more.
#[verifier::external_body]
fn encode_conversation(text: &str) -> (r: Vec<u8>)
    requires
        text@.len() <= 0x1FFF_FFF0,
    ensures
        r@ == conversation_message_encoding(text@),
{
    let message = waproto::whatsapp::Message { conversation: Some(text.to_string()), ..Default::default() };
    buffa::Message::encode_to_vec(&message)
}

/// Building channel messages.
pub struct NewsletterHelpers;

impl NewsletterHelpers {
    /// The encoded message that carries a plain text.
    pub fn build_text_message(text: String) -> (r: Vec<u8>)
        requires
            text@.len() <= 0x1FFF_FFF0,
        ensures
            r@ == conversation_message_encoding(text@),
    {
        encode_conversation(text.as_str())
    }
}

/// Comparing addresses for blocking.
pub struct BlockingHelpers;

impl BlockingHelpers {
    /// Whether two addresses name the same user, whatever their servers or
    /// devices.
    pub fn same_user(a: &JID, b: &JID) -> (r: bool)
        ensures
            r == (a.user@ == b.user@),
    {
        JID::same_user(a, b)
    }
}

} // verus!
