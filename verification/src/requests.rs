//! The checks requests pass before they are sent, and the small values they
//! are built from.
use vstd::prelude::*;
use crate::jid::{non_ad, JidServer, JidView, JID};
use crate::text::{char_is_white_space, is_white_space, push_str, str_eq};
use crate::helpers::{StatusPrivacySetting, StatusSendOptions};
use crate::types::{jid_text_of, MessageInfo, UploadResponse};
use crate::runner::{bot_not_running_message, get_bot_client};
use wacore::iq::groups::{GroupDescription, GroupSubject};

verus! {

/// The message refusing an empty list.
pub open spec fn empty_list_message(field: Seq<char>) -> Seq<char> {
    field + " cannot be empty"@
}

/// Refuses an empty list of participants, recipients, options or the like;
/// the message names the field.
pub fn require_non_empty(count: usize, field: &str) -> (r: Result<(), String>)
    ensures
        count > 0 ==> r is Ok,
        count == 0 ==> (r matches Err(m) && m@ == empty_list_message(field@)),
{
    if count == 0 {
        let mut message = String::from_str(field);
        push_str(&mut message, " cannot be empty");
        Err(message)
    } else {
        Ok(())
    }
}

/// Whether a text is empty or all white space.
pub open spec fn is_blank(s: Seq<char>) -> bool {
    forall|i: int| 0 <= i < s.len() ==> is_white_space(#[trigger] s[i])
}

fn blank(s: &str) -> (r: bool)
    ensures
        r == is_blank(s@),
{
    let n = s.unicode_len();
    let mut i: usize = 0;
    while i < n
        invariant
            n == s@.len(),
            i <= n,
            forall|j: int| 0 <= j < i ==> is_white_space(#[trigger] s@[j]),
        decreases n - i,
    {
        if !char_is_white_space(s.get_char(i)) {
            return false;
        }
        i = i + 1;
    }
    true
}

/// The message refusing a blank channel name.
pub open spec fn blank_name_message() -> Seq<char> {
    "name cannot be empty"@
}

/// A channel needs a name that is not blank.
pub fn check_newsletter_name(name: &str) -> (r: Result<(), String>)
    ensures
        !is_blank(name@) ==> r is Ok,
        is_blank(name@) ==> (r matches Err(m) && m@ == blank_name_message()),
{
    if blank(name) {
        Err(String::from_str("name cannot be empty"))
    } else {
        Ok(())
    }
}

/// The message refusing a blank community name.
pub open spec fn blank_community_name_message() -> Seq<char> {
    "Community name cannot be empty"@
}

/// A community needs a name that is not blank.
pub fn check_community_name(name: &str) -> (r: Result<(), String>)
    ensures
        !is_blank(name@) ==> r is Ok,
        is_blank(name@) ==> (r matches Err(m) && m@ == blank_community_name_message()),
{
    if blank(name) {
        Err(String::from_str("Community name cannot be empty"))
    } else {
        Ok(())
    }
}

/// The message refusing an update that changes nothing.
pub open spec fn empty_update_message() -> Seq<char> {
    "at least one of name or description must be provided"@
}

/// A channel update must change the name, the description, or both.
pub fn check_newsletter_update(name: &Option<String>, description: &Option<String>) -> (r: Result<(), String>)
    ensures
        (name is Some || description is Some) ==> r is Ok,
        (name is None && description is None) ==> (r matches Err(m) && m@ == empty_update_message()),
{
    if name.is_none() && description.is_none() {
        Err(String::from_str("at least one of name or description must be provided"))
    } else {
        Ok(())
    }
}

/// The message refusing a key of the wrong length.
pub open spec fn key_length_message(field: Seq<char>) -> Seq<char> {
    field + " must contain exactly 32 bytes"@
}

/// A 32-byte value; any other length is refused with a message naming the
/// field.
pub fn as_32_bytes(field: &str, value: &[u8]) -> (r: Result<Vec<u8>, String>)
    ensures
        value@.len() == 32 ==> (r matches Ok(v) && v@ == value@),
        value@.len() != 32 ==> (r matches Err(m) && m@ == key_length_message(field@)),
{
    if value.len() != 32 {
        let mut message = String::from_str(field);
        push_str(&mut message, " must contain exactly 32 bytes");
        return Err(message);
    }
    let mut out: Vec<u8> = Vec::new();
    let mut i: usize = 0;
    while i < value.len()
        invariant
            i <= value@.len(),
            out@ =~= value@.take(i as int),
        decreases value@.len() - i,
    {
        out.push(value[i]);
        i = i + 1;
    }
    assert(value@.take(i as int) =~= value@);
    Ok(out)
}

/// The three 32-byte keys of an upload that a status update carries.
pub struct UploadKeys {
    pub media_key: Vec<u8>,
    pub file_enc_sha256: Vec<u8>,
    pub file_sha256: Vec<u8>,
}

/// The checks of a status update with media, in order: there are
/// recipients, then the media key, the encrypted file's hash and the file's
/// hash are each 32 bytes long. The first failing check gives the error.
pub fn check_status_media(recipient_count: usize, upload: &UploadResponse) -> (r: Result<UploadKeys, String>)
    ensures
        recipient_count == 0 ==> (r matches Err(m) && m@ == empty_list_message("recipients"@)),
        recipient_count > 0 && upload.media_key@.len() != 32 ==> (r matches Err(m) && m@ == key_length_message("upload.media_key"@)),
        recipient_count > 0 && upload.media_key@.len() == 32 && upload.file_enc_sha256@.len() != 32 ==> (r matches Err(m)
            && m@ == key_length_message("upload.file_enc_sha256"@)),
        recipient_count > 0 && upload.media_key@.len() == 32 && upload.file_enc_sha256@.len() == 32
            && upload.file_sha256@.len() != 32 ==> (r matches Err(m) && m@ == key_length_message("upload.file_sha256"@)),
        recipient_count > 0 && upload.media_key@.len() == 32 && upload.file_enc_sha256@.len() == 32
            && upload.file_sha256@.len() == 32 ==> (r matches Ok(k) && k.media_key@ == upload.media_key@
            && k.file_enc_sha256@ == upload.file_enc_sha256@ && k.file_sha256@ == upload.file_sha256@),
{
    require_non_empty(recipient_count, "recipients")?;
    let media_key = as_32_bytes("upload.media_key", upload.media_key.as_slice())?;
    let file_enc_sha256 = as_32_bytes("upload.file_enc_sha256", upload.file_enc_sha256.as_slice())?;
    let file_sha256 = as_32_bytes("upload.file_sha256", upload.file_sha256.as_slice())?;
    Ok(UploadKeys { media_key, file_enc_sha256, file_sha256 })
}

/// The first failing check of a status update with media, in the order
/// `check_status_media` makes them, if any fails.
pub open spec fn status_media_error(recipient_count: nat, upload: UploadResponse) -> Option<Seq<char>> {
    if recipient_count == 0 {
        Some(empty_list_message("recipients"@))
    } else if upload.media_key@.len() != 32 {
        Some(key_length_message("upload.media_key"@))
    } else if upload.file_enc_sha256@.len() != 32 {
        Some(key_length_message("upload.file_enc_sha256"@))
    } else if upload.file_sha256@.len() != 32 {
        Some(key_length_message("upload.file_sha256"@))
    } else {
        None
    }
}

/// What a status update with media does before it is sent: the checks of
/// `check_status_media` first, and only when all pass, the running client;
/// a stopped client is refused only after them.
pub fn prepare_status_media<C>(recipient_count: usize, upload: &UploadResponse, client: Option<C>) -> (r: Result<(UploadKeys, C), String>)
    ensures
        status_media_error(recipient_count as nat, *upload) matches Some(m) ==> (r matches Err(e) && e@ == m),
        status_media_error(recipient_count as nat, *upload) is None && client is None ==> (r matches Err(e)
            && e@ == bot_not_running_message()),
        status_media_error(recipient_count as nat, *upload) is None && client is Some ==> (r matches Ok((k, c))
            && Some(c) == client && k.media_key@ == upload.media_key@ && k.file_enc_sha256@ == upload.file_enc_sha256@
            && k.file_sha256@ == upload.file_sha256@),
{
    let keys = check_status_media(recipient_count, upload)?;
    let running = get_bot_client(client)?;
    Ok((keys, running))
}

/// The options of a status update: the ones given, else those sending to
/// the contacts.
pub fn status_options(options: Option<StatusSendOptions>) -> (r: StatusSendOptions)
    ensures
        options matches Some(o) ==> r == o,
        options is None ==> r.privacy == StatusPrivacySetting::Contacts,
{
    match options {
        Some(o) => o,
        None => StatusSendOptions { privacy: StatusPrivacySetting::Contacts },
    }
}

#[verifier::external_type_specification]
#[verifier::external_body]
pub struct ExGroupSubject(GroupSubject);

#[verifier::external_type_specification]
#[verifier::external_body]
pub struct ExGroupDescription(GroupDescription);

/// The most characters a group subject may have.
pub const GROUP_SUBJECT_MAX_LENGTH: usize = 100;
/// The most characters a group description may have.
pub const GROUP_DESCRIPTION_MAX_LENGTH: usize = 2048;

/// The message refusing a subject that is too long.
pub open spec fn long_subject_message() -> Seq<char> {
    "Group subject exceeds 100 characters"@
}

/// The message refusing a description that is too long.
pub open spec fn long_description_message() -> Seq<char> {
    "Group description exceeds 2048 characters"@
}

/// The subject that wraps a text.
pub uninterp spec fn group_subject_value(text: Seq<char>) -> GroupSubject;

/// The description that wraps a text.
pub uninterp spec fn group_description_value(text: Seq<char>) -> GroupDescription;

/// `GroupSubject::new` from the protocol library: refuses a text of more
/// than 100 characters with the message `long_subject_message` states, and
/// wraps any other: the subject is the one named by `group_subject_value`
/// of that text.
#[verifier::external_body]
fn new_group_subject(value: &str) -> (r: Result<GroupSubject, String>)
    ensures
        match r {
            Ok(g) => value@.len() <= GROUP_SUBJECT_MAX_LENGTH && g == group_subject_value(value@),
            Err(m) => value@.len() > GROUP_SUBJECT_MAX_LENGTH && m@ == long_subject_message(),
        },
{
    GroupSubject::new(value).map_err(|e| e.to_string())
}

/// `GroupDescription::new` from the protocol library: as
/// `new_group_subject`, with a limit of 2048 characters; the description is
/// the one named by `group_description_value` of the text.
#[verifier::external_body]
fn new_group_description(value: &str) -> (r: Result<GroupDescription, String>)
    ensures
        match r {
            Ok(g) => value@.len() <= GROUP_DESCRIPTION_MAX_LENGTH && g == group_description_value(value@),
            Err(m) => value@.len() > GROUP_DESCRIPTION_MAX_LENGTH && m@ == long_description_message(),
        },
{
    GroupDescription::new(value).map_err(|e| e.to_string())
}

/// The subject a group is renamed to: at most 100 characters.
pub fn group_subject(subject: &str) -> (r: Result<GroupSubject, String>)
    ensures
        subject@.len() <= GROUP_SUBJECT_MAX_LENGTH ==> r == Ok::<GroupSubject, String>(group_subject_value(subject@)),
        subject@.len() > GROUP_SUBJECT_MAX_LENGTH ==> (r matches Err(m) && m@ == long_subject_message()),
{
    new_group_subject(subject)
}

/// The description a group is given, or none to clear it: at most 2048
/// characters.
pub fn group_description(description: Option<&str>) -> (r: Result<Option<GroupDescription>, String>)
    ensures
        description is None ==> (r matches Ok(None)),
        description matches Some(d) ==> (d@.len() <= GROUP_DESCRIPTION_MAX_LENGTH ==> (r matches Ok(Some(g))
            && g == group_description_value(d@))),
        description matches Some(d) && d@.len() > GROUP_DESCRIPTION_MAX_LENGTH ==> (r matches Err(m)
            && m@ == long_description_message()),
{
    match description {
        None => Ok(None),
        Some(d) => match new_group_description(d) {
            Ok(v) => Ok(Some(v)),
            Err(e) => Err(e),
        },
    }
}

/// The media of a call joined through a link.
#[derive(Clone, Copy, Debug, PartialEq, Eq, Structural)]
pub enum CallLinkMedia {
    Audio,
    Video,
}

/// The media named by a text: `"audio"` or `"video"`.
pub open spec fn call_link_media_of(name: Seq<char>) -> Option<CallLinkMedia> {
    if name == "audio"@ {
        Some(CallLinkMedia::Audio)
    } else if name == "video"@ {
        Some(CallLinkMedia::Video)
    } else {
        None
    }
}

/// The message refusing other media.
pub open spec fn call_media_message() -> Seq<char> {
    "media must be audio or video"@
}

/// Reads the media of a call link: `"audio"` or `"video"`, anything else is
/// refused.
pub fn parse_call_link_media(media: &str) -> (r: Result<CallLinkMedia, String>)
    ensures
        call_link_media_of(media@) matches Some(m) ==> r == Ok::<CallLinkMedia, String>(m),
        call_link_media_of(media@) is None ==> (r matches Err(e) && e@ == call_media_message()),
{
    if str_eq(media, "audio") {
        Ok(CallLinkMedia::Audio)
    } else if str_eq(media, "video") {
        Ok(CallLinkMedia::Video)
    } else {
        Err(String::from_str("media must be audio or video"))
    }
}

/// An answer to an event invitation.
#[derive(Clone, Copy, Debug, PartialEq, Eq, Structural)]
pub enum EventResponse {
    Going,
    NotGoing,
    Maybe,
}

/// The privacy settings one can change.
#[derive(Clone, Debug, PartialEq, Eq)]
pub enum PrivacyCategory {
    Last,
    Online,
    Profile,
    Status,
    GroupAdd,
    ReadReceipts,
    CallAdd,
    Messages,
    DefenseMode,
    /// A category not known to this library.
    Other(String),
}

/// The values a privacy setting can take.
#[derive(Clone, Debug, PartialEq, Eq)]
pub enum PrivacyValue {
    All,
    Contacts,
    /// Nobody (the value written `none`).
    Nobody,
    ContactBlacklist,
    MatchLastSeen,
    Known,
    Off,
    OnStandard,
    /// A value not known to this library.
    Other(String),
}

/// Which values each category accepts; a category not known accepts any.
pub open spec fn accepts(category: PrivacyCategory, value: PrivacyValue) -> bool {
    match category {
        PrivacyCategory::Last | PrivacyCategory::Profile | PrivacyCategory::Status | PrivacyCategory::GroupAdd =>
            value is All || value is Contacts || value is ContactBlacklist || value is Nobody,
        PrivacyCategory::ReadReceipts => value is All || value is Nobody,
        PrivacyCategory::Online => value is All || value is MatchLastSeen,
        PrivacyCategory::CallAdd => value is All || value is Known || value is Contacts,
        PrivacyCategory::Messages => value is All || value is Contacts,
        PrivacyCategory::DefenseMode => value is Off || value is OnStandard,
        PrivacyCategory::Other(_) => true,
    }
}

/// The categories that keep a list of excluded contacts.
pub open spec fn has_disallowed_list(category: PrivacyCategory) -> bool {
    category is Last || category is Profile || category is Status || category is GroupAdd
}

impl PrivacyCategory {
    /// Whether the category accepts the value.
    pub fn is_valid_value(&self, value: &PrivacyValue) -> (r: bool)
        ensures
            r == accepts(*self, *value),
    {
        match self {
            PrivacyCategory::Last | PrivacyCategory::Profile | PrivacyCategory::Status | PrivacyCategory::GroupAdd =>
                match value {
                    PrivacyValue::All | PrivacyValue::Contacts | PrivacyValue::ContactBlacklist | PrivacyValue::Nobody => true,
                    _ => false,
                },
            PrivacyCategory::ReadReceipts => match value {
                PrivacyValue::All | PrivacyValue::Nobody => true,
                _ => false,
            },
            PrivacyCategory::Online => match value {
                PrivacyValue::All | PrivacyValue::MatchLastSeen => true,
                _ => false,
            },
            PrivacyCategory::CallAdd => match value {
                PrivacyValue::All | PrivacyValue::Known | PrivacyValue::Contacts => true,
                _ => false,
            },
            PrivacyCategory::Messages => match value {
                PrivacyValue::All | PrivacyValue::Contacts => true,
                _ => false,
            },
            PrivacyCategory::DefenseMode => match value {
                PrivacyValue::Off | PrivacyValue::OnStandard => true,
                _ => false,
            },
            PrivacyCategory::Other(_) => true,
        }
    }

    /// Whether the category keeps a list of excluded contacts.
    pub fn supports_disallowed_list(&self) -> (r: bool)
        ensures
            r == has_disallowed_list(*self),
    {
        match self {
            PrivacyCategory::Last | PrivacyCategory::Profile | PrivacyCategory::Status | PrivacyCategory::GroupAdd => true,
            _ => false,
        }
    }
}

/// The message refusing a value the category does not accept.
pub open spec fn invalid_privacy_value_message() -> Seq<char> {
    "invalid value for privacy category"@
}

/// A privacy change must give a value its category accepts.
pub fn check_privacy_setting(category: &PrivacyCategory, value: &PrivacyValue) -> (r: Result<(), String>)
    ensures
        accepts(*category, *value) ==> r is Ok,
        !accepts(*category, *value) ==> (r matches Err(m) && m@ == invalid_privacy_value_message()),
{
    if category.is_valid_value(value) {
        Ok(())
    } else {
        Err(String::from_str("invalid value for privacy category"))
    }
}

/// The message refusing an exclusion list for a category without one.
pub open spec fn no_disallowed_list_message() -> Seq<char> {
    "category does not support disallowed list"@
}

/// An exclusion list can only be set for the categories that keep one.
pub fn check_disallowed_list(category: &PrivacyCategory) -> (r: Result<(), String>)
    ensures
        has_disallowed_list(*category) ==> r is Ok,
        !has_disallowed_list(*category) ==> (r matches Err(m) && m@ == no_disallowed_list_message()),
{
    if category.supports_disallowed_list() {
        Ok(())
    } else {
        Err(String::from_str("category does not support disallowed list"))
    }
}

/// The values of addresses.
pub open spec fn jid_views(v: Seq<JID>) -> Seq<JidView> {
    v.map_values(|j: JID| j@)
}

/// The addresses on a server, in order, without agent and device.
pub open spec fn lookup_users(jids: Seq<JidView>, server: JidServer) -> Seq<JidView>
    decreases jids.len(),
{
    if jids.len() == 0 {
        Seq::empty()
    } else {
        let rest = lookup_users(jids.drop_last(), server);
        if jids.last().server == server {
            rest.push(non_ad(jids.last()))
        } else {
            rest
        }
    }
}

/// Who to look up to learn whether addresses are on WhatsApp: phone-number
/// addresses in one query, LID addresses in another; other addresses are
/// not looked up. `LookupPlan::queries` gives the queries to send.
pub struct LookupPlan {
    pub pn_users: Vec<JID>,
    pub lid_users: Vec<JID>,
}

/// Which kind of address a lookup query asks about.
#[derive(Clone, Copy, Debug, PartialEq, Eq, Structural)]
pub enum LookupKind {
    Pn,
    Lid,
}

/// The queries to send for the two lists, in order: the phone-number query
/// when its list is not empty, then the LID query when its list is not
/// empty. With both lists empty nothing is sent.
pub open spec fn lookup_queries(pn: Seq<JidView>, lid: Seq<JidView>) -> Seq<(LookupKind, Seq<JidView>)> {
    (if pn.len() > 0 { seq![(LookupKind::Pn, pn)] } else { Seq::empty() })
        + (if lid.len() > 0 { seq![(LookupKind::Lid, lid)] } else { Seq::empty() })
}

/// The values of a list of queries.
pub open spec fn query_views(q: Seq<(LookupKind, Vec<JID>)>) -> Seq<(LookupKind, Seq<JidView>)> {
    q.map_values(|e: (LookupKind, Vec<JID>)| (e.0, jid_views(e.1@)))
}

fn copy_jids(v: &Vec<JID>) -> (r: Vec<JID>)
    ensures
        jid_views(r@) == jid_views(v@),
{
    let mut out: Vec<JID> = Vec::new();
    let mut i: usize = 0;
    while i < v.len()
        invariant
            i <= v@.len(),
            out@.len() == i,
            forall|j: int| 0 <= j < i ==> #[trigger] out@[j]@ == v@[j]@,
        decreases v@.len() - i,
    {
        out.push(v[i].duplicate());
        i = i + 1;
    }
    assert(jid_views(out@) =~= jid_views(v@));
    out
}

impl LookupPlan {
    /// The queries to send, in order; see `lookup_queries`.
    pub fn queries(&self) -> (q: Vec<(LookupKind, Vec<JID>)>)
        ensures
            query_views(q@) == lookup_queries(jid_views(self.pn_users@), jid_views(self.lid_users@)),
    {
        let mut q: Vec<(LookupKind, Vec<JID>)> = Vec::new();
        if self.pn_users.len() > 0 {
            q.push((LookupKind::Pn, copy_jids(&self.pn_users)));
        }
        if self.lid_users.len() > 0 {
            q.push((LookupKind::Lid, copy_jids(&self.lid_users)));
        }
        assert(query_views(q@) =~= lookup_queries(jid_views(self.pn_users@), jid_views(self.lid_users@)));
        q
    }
}

/// Lists one after another.
pub open spec fn concat_all<T>(parts: Seq<Seq<T>>) -> Seq<T>
    decreases parts.len(),
{
    if parts.len() == 0 {
        Seq::empty()
    } else {
        parts[0] + concat_all(parts.drop_first())
    }
}

/// The values of a list of lists.
pub open spec fn part_views<T>(parts: Seq<Vec<T>>) -> Seq<Seq<T>> {
    parts.map_values(|p: Vec<T>| p@)
}

/// The answer to a lookup: the answers of the queries sent, one after
/// another in the order the queries were sent.
pub fn combine_lookup_answers<T>(answers: Vec<Vec<T>>) -> (r: Vec<T>)
    ensures
        r@ == concat_all(part_views(answers@)),
{
    let mut rest = answers;
    let mut out: Vec<T> = Vec::new();
    while rest.len() > 0
        invariant
            out@ + concat_all(part_views(rest@)) == concat_all(part_views(answers@)),
        decreases rest@.len(),
    {
        let ghost before = part_views(rest@);
        let mut first = rest.remove(0);
        assert(part_views(rest@) =~= before.drop_first());
        assert(before[0] == first@);
        let ghost out_before = out@;
        out.append(&mut first);
        assert(out@ + concat_all(part_views(rest@)) =~= out_before + concat_all(before));
    }
    assert(concat_all(part_views(rest@)) =~= Seq::<T>::empty());
    assert(out@ =~= out@ + concat_all(part_views(rest@)));
    out
}

/// Splits addresses into the two lookups, keeping their order.
pub fn plan_is_on_whatsapp(jids: &Vec<JID>) -> (r: LookupPlan)
    ensures
        jid_views(r.pn_users@) == lookup_users(jid_views(jids@), JidServer::Pn),
        jid_views(r.lid_users@) == lookup_users(jid_views(jids@), JidServer::Lid),
{
    let ghost all = jid_views(jids@);
    let mut pn_users: Vec<JID> = Vec::new();
    let mut lid_users: Vec<JID> = Vec::new();
    let mut i: usize = 0;
    while i < jids.len()
        invariant
            i <= jids@.len(),
            all == jid_views(jids@),
            jid_views(pn_users@) == lookup_users(all.take(i as int), JidServer::Pn),
            jid_views(lid_users@) == lookup_users(all.take(i as int), JidServer::Lid),
        decreases jids@.len() - i,
    {
        let jid = &jids[i];
        assert(all.take(i + 1).drop_last() =~= all.take(i as int));
        assert(all.take(i + 1).last() == jid@);
        if jid.is_pn() {
            let ghost before = jid_views(pn_users@);
            let user = jid.to_non_ad();
            pn_users.push(user);
            assert(jid_views(pn_users@) =~= before.push(non_ad(jid@)));
        } else if jid.is_lid() {
            let ghost before = jid_views(lid_users@);
            let user = jid.to_non_ad();
            lid_users.push(user);
            assert(jid_views(lid_users@) =~= before.push(non_ad(jid@)));
        }
        i = i + 1;
    }
    assert(all.take(i as int) =~= all);
    LookupPlan { pn_users, lid_users }
}

/// The key of a message as protocol messages refer to it.
pub struct MessageKey {
    pub remote_jid: Option<String>,
    pub from_me: Option<bool>,
    pub id: Option<String>,
    pub participant: Option<String>,
}

/// The key a comment uses to refer to the message it answers: the chat, the
/// direction and the id, and in a group also the sender.
pub fn comment_parent_key(parent: &MessageInfo) -> (r: MessageKey)
    ensures
        r.remote_jid matches Some(c) && c@ == jid_text_of(parent.source.chat@),
        r.from_me == Some(parent.source.is_from_me),
        r.id matches Some(i) && i@ == parent.id@,
        parent.source.is_group ==> (r.participant matches Some(p) && p@ == jid_text_of(parent.source.sender@)),
        !parent.source.is_group ==> r.participant is None,
{
    let participant = if parent.source.is_group {
        Some(parent.source.sender.to_string())
    } else {
        None
    };
    MessageKey {
        remote_jid: Some(parent.source.chat.to_string()),
        from_me: Some(parent.source.is_from_me),
        id: Some(parent.id.clone()),
        participant,
    }
}

/// The key of a message given by its parts: the id, the chat, the
/// direction, and the sender when one is given.
pub fn message_key(id: String, remote_jid: &JID, from_me: bool, participant: Option<&JID>) -> (r: MessageKey)
    ensures
        r.remote_jid matches Some(c) && c@ == jid_text_of(remote_jid@),
        r.from_me == Some(from_me),
        r.id matches Some(i) && i@ == id@,
        match participant {
            Some(p) => r.participant matches Some(t) && t@ == jid_text_of(p@),
            None => r.participant is None,
        },
{
    let participant_text = match participant {
        Some(p) => Some(p.to_string()),
        None => None,
    };
    MessageKey { remote_jid: Some(remote_jid.to_string()), from_me: Some(from_me), id: Some(id), participant: participant_text }
}

} // verus!
