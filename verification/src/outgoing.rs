//! The messages a client sends: a text, or a text replying to a received
//! message; a photo from an upload, optionally replying; and raw encoded
//! messages handed over by the caller, read before sending. Encodings and
//! decodings are done by the protocol library and named here as functions of
//! what goes in.
use vstd::prelude::*;
use crate::helpers::conversation_message_encoding;
use crate::jid::JID;
use crate::text::push_str;
use crate::types::{jid_text_of, UploadResponse};
use waproto::whatsapp as wa;
use waproto::whatsapp::MessageKey as WireMessageKey;
use wacore::proto_helpers::build_quote_context;

verus! {

#[verifier::external_type_specification]
#[verifier::external_body]
pub struct ExWhatsappMessage(wa::Message);

#[verifier::external_type_specification]
#[verifier::external_body]
pub struct ExMessageKey(WireMessageKey);

#[verifier::external_type_specification]
#[verifier::external_body]
pub struct ExSyncActionMessageRange(wa::sync_action_value::SyncActionMessageRange);

/// Whether bytes fail to decode as a protocol message, and the decoder's
/// message when they do.
pub uninterp spec fn whatsapp_message_decode_error(bytes: Seq<u8>) -> Option<Seq<char>>;

/// The protocol message bytes decode to, when they decode.
pub uninterp spec fn whatsapp_message_of(bytes: Seq<u8>) -> wa::Message;

/// Whether bytes fail to decode as a message key, and the decoder's message.
pub uninterp spec fn message_key_decode_error(bytes: Seq<u8>) -> Option<Seq<char>>;

/// The message key bytes decode to, when they decode.
pub uninterp spec fn message_key_of(bytes: Seq<u8>) -> WireMessageKey;

/// Whether bytes fail to decode as a message range, and the decoder's message.
pub uninterp spec fn message_range_decode_error(bytes: Seq<u8>) -> Option<Seq<char>>;

/// The message range bytes decode to, when they decode.
pub uninterp spec fn message_range_of(bytes: Seq<u8>) -> wa::sync_action_value::SyncActionMessageRange;

/// The encoding of a message holding `text` as an extended text that quotes
/// the message encoded as `quoted_message`, with id `quoted_id`, from the
/// chat written `quoted_chat`.
pub uninterp spec fn reply_text_encoding(
    text: Seq<char>,
    quoted_id: Seq<char>,
    quoted_chat: Seq<char>,
    quoted_message: Seq<u8>,
) -> Seq<u8>;

/// The encoding of a message holding an uploaded image with its caption,
/// quoting a message (its id, chat and encoding) when one is given.
pub uninterp spec fn photo_message_encoding(
    url: Seq<char>,
    direct_path: Seq<char>,
    media_key: Seq<u8>,
    file_enc_sha256: Seq<u8>,
    file_sha256: Seq<u8>,
    file_length: u64,
    caption: Seq<char>,
    quote: Option<(Seq<char>, Seq<char>, Seq<u8>)>,
) -> Seq<u8>;

/// `buffa::Message::decode_from_slice` for the protocol message. The
/// contract names whether it fails, the error's text and the message.
#[verifier::external_body]
fn decode_whatsapp_message(bytes: &[u8]) -> (r: Result<wa::Message, String>)
    ensures
        match r {
            Ok(m) => whatsapp_message_decode_error(bytes@) is None && m == whatsapp_message_of(bytes@),
            Err(e) => whatsapp_message_decode_error(bytes@) == Some(e@),
        },
{
    <wa::Message as buffa::Message>::decode_from_slice(bytes).map_err(|e| e.to_string())
}

/// As `decode_whatsapp_message`, for a message key.
#[verifier::external_body]
fn decode_key(bytes: &[u8]) -> (r: Result<WireMessageKey, String>)
    ensures
        match r {
            Ok(m) => message_key_decode_error(bytes@) is None && m == message_key_of(bytes@),
            Err(e) => message_key_decode_error(bytes@) == Some(e@),
        },
{
    <WireMessageKey as buffa::Message>::decode_from_slice(bytes).map_err(|e| e.to_string())
}

/// As `decode_whatsapp_message`, for a message range of a sync action.
#[verifier::external_body]
fn decode_range(bytes: &[u8]) -> (r: Result<wa::sync_action_value::SyncActionMessageRange, String>)
    ensures
        match r {
            Ok(m) => message_range_decode_error(bytes@) is None && m == message_range_of(bytes@),
            Err(e) => message_range_decode_error(bytes@) == Some(e@),
        },
{
    <wa::sync_action_value::SyncActionMessageRange as buffa::Message>::decode_from_slice(bytes).map_err(|e| e.to_string())
}

/// Bounds under which an encoded message stays well below the 2 GiB past
/// which the encoder panics: a character takes at most 4 bytes.
pub open spec fn fits_encoding(chars: nat, bytes: nat) -> bool {
    4 * chars + bytes <= 0x4000_0000
}

/// `wacore::proto_helpers::build_quote_context` on the quoted message
/// (decoded from its encoding), then `encode_to_vec` of a message whose
/// extended text holds `text` and that context. Fails only when the quoted
/// encoding does not decode, with the decoder's error.
#[verifier::external_body]
fn encode_reply_text(text: &str, quoted_id: &str, quoted_chat: &str, quoted: &[u8]) -> (r: Result<Vec<u8>, String>)
    requires
        fits_encoding(text@.len() + quoted_id@.len() + quoted_chat@.len(), quoted@.len()),
    ensures
        match r {
            Ok(b) => whatsapp_message_decode_error(quoted@) is None
                && b@ == reply_text_encoding(text@, quoted_id@, quoted_chat@, quoted@),
            Err(e) => whatsapp_message_decode_error(quoted@) == Some(e@),
        },
{
    let quoted_message = <wa::Message as buffa::Message>::decode_from_slice(quoted).map_err(|e| e.to_string())?;
    let context = build_quote_context(quoted_id, quoted_chat, &quoted_message);
    let extended = wa::message::ExtendedTextMessage {
        text: Some(text.to_string()),
        context_info: buffa::MessageField::some(context),
        ..Default::default()
    };
    let message = wa::Message { extended_text_message: buffa::MessageField::some(extended), ..Default::default() };
    Ok(buffa::Message::encode_to_vec(&message))
}

/// `encode_to_vec` of a message holding an image message built from an
/// upload and a caption, with `build_quote_context` on the quoted message
/// (decoded from its encoding) when one is given. Fails only when that
/// encoding does not decode, with the decoder's error.
#[verifier::external_body]
fn encode_photo_message(upload: UploadResponse, caption: &str, quote: Option<(&str, &str, &[u8])>) -> (r: Result<Vec<u8>, String>)
    requires
        fits_encoding(upload.url@.len() + upload.direct_path@.len() + caption@.len() + match quote {
            Some(q) => q.0@.len() + q.1@.len(),
            None => 0nat,
        }, upload.media_key@.len() + upload.file_enc_sha256@.len() + upload.file_sha256@.len() + match quote {
            Some(q) => q.2@.len(),
            None => 0nat,
        }),
    ensures
        match r {
            Ok(b) => (quote matches Some(q) ==> whatsapp_message_decode_error(q.2@) is None) && b@ == photo_message_encoding(
                upload.url@, upload.direct_path@, upload.media_key@, upload.file_enc_sha256@, upload.file_sha256@,
                upload.file_length, caption@, match quote {
                    Some(q) => Some((q.0@, q.1@, q.2@)),
                    None => None,
                }),
            Err(e) => quote matches Some(q) && whatsapp_message_decode_error(q.2@) == Some(e@),
        },
{
    let context = match quote {
        Some((id, chat, bytes)) => Some(build_quote_context(id, chat, &<wa::Message as buffa::Message>::decode_from_slice(bytes).map_err(|e| e.to_string())?)),
        None => None,
    };
    let image = wa::message::ImageMessage { url: Some(upload.url), direct_path: Some(upload.direct_path),
        media_key: Some(upload.media_key), file_enc_sha256: Some(upload.file_enc_sha256),
        file_sha256: Some(upload.file_sha256), file_length: Some(upload.file_length),
        caption: Some(caption.to_string()), context_info: context.into(), ..Default::default() };
    let message = wa::Message { image_message: buffa::MessageField::some(image), ..Default::default() };
    Ok(buffa::Message::encode_to_vec(&message))
}

/// A received message to reply to: its id, its chat and its content encoded.
pub struct QuotedMessage {
    pub id: String,
    pub chat: JID,
    pub message: Vec<u8>,
}

/// The message refusing bytes that are not a protocol message.
pub open spec fn message_decode_message(error: Seq<char>) -> Seq<char> {
    "Failed to decode WhatsAppMessage proto: "@ + error
}

/// The message refusing bytes that are not a message key.
pub open spec fn key_decode_message(error: Seq<char>) -> Seq<char> {
    "Failed to decode MessageKey: "@ + error
}

/// The message refusing bytes that are not a message range.
pub open spec fn range_decode_message(error: Seq<char>) -> Seq<char> {
    "Failed to decode SyncActionMessageRange: "@ + error
}

fn prefixed(prefix: &str, error: String) -> (r: String)
    ensures
        r@ == prefix@ + error@,
{
    let mut out = String::from_str(prefix);
    push_str(&mut out, error.as_str());
    out
}

/// The message a text send carries: the plain text, or, replying to a
/// message, an extended text quoting it. A quoted message whose encoding
/// does not decode is refused.
pub fn build_send_text_message(text: &str, quoted: Option<&QuotedMessage>) -> (r: Result<Vec<u8>, String>)
    requires
        text@.len() <= 0x1FFF_FFF0,
        quoted matches Some(q) ==> fits_encoding(text@.len() + q.id@.len() + jid_text_of(q.chat@).len(), q.message@.len()),
    ensures
        match quoted {
            None => r matches Ok(b) && b@ == conversation_message_encoding(text@),
            Some(q) => match whatsapp_message_decode_error(q.message@) {
                None => r matches Ok(b) && b@ == reply_text_encoding(text@, q.id@, jid_text_of(q.chat@), q.message@),
                Some(e) => r matches Err(m) && m@ == message_decode_message(e),
            },
        },
{
    match quoted {
        None => {
            let message = crate::helpers::NewsletterHelpers::build_text_message(String::from_str(text));
            Ok(message)
        },
        Some(q) => {
            let chat = q.chat.to_string();
            match encode_reply_text(text, q.id.as_str(), chat.as_str(), q.message.as_slice()) {
                Ok(b) => Ok(b),
                Err(e) => Err(prefixed("Failed to decode WhatsAppMessage proto: ", e)),
            }
        },
    }
}

/// The message a photo send carries: the uploaded image with its caption,
/// quoting a message when one is given. A quoted message whose encoding
/// does not decode is refused.
pub fn build_photo_message(upload: &UploadResponse, caption: &str, quoted: Option<&QuotedMessage>) -> (r: Result<Vec<u8>, String>)
    requires
        fits_encoding(upload.url@.len() + upload.direct_path@.len() + caption@.len() + match quoted {
            Some(q) => q.id@.len() + jid_text_of(q.chat@).len(),
            None => 0nat,
        }, upload.media_key@.len() + upload.file_enc_sha256@.len() + upload.file_sha256@.len() + match quoted {
            Some(q) => q.message@.len(),
            None => 0nat,
        }),
    ensures
        match quoted {
            None => r matches Ok(b) && b@ == photo_message_encoding(upload.url@, upload.direct_path@, upload.media_key@,
                upload.file_enc_sha256@, upload.file_sha256@, upload.file_length, caption@, None),
            Some(q) => match whatsapp_message_decode_error(q.message@) {
                None => r matches Ok(b) && b@ == photo_message_encoding(upload.url@, upload.direct_path@,
                    upload.media_key@, upload.file_enc_sha256@, upload.file_sha256@, upload.file_length, caption@,
                    Some((q.id@, jid_text_of(q.chat@), q.message@))),
                Some(e) => r matches Err(m) && m@ == message_decode_message(e),
            },
        },
{
    let owned = UploadResponse {
        url: upload.url.clone(),
        direct_path: upload.direct_path.clone(),
        media_key: upload.media_key.clone(),
        file_enc_sha256: upload.file_enc_sha256.clone(),
        file_sha256: upload.file_sha256.clone(),
        file_length: upload.file_length,
    };
    match quoted {
        None => encode_photo_message(owned, caption, None),
        Some(q) => {
            let chat = q.chat.to_string();
            match encode_photo_message(owned, caption, Some((q.id.as_str(), chat.as_str(), q.message.as_slice()))) {
                Ok(b) => Ok(b),
                Err(e) => Err(prefixed("Failed to decode WhatsAppMessage proto: ", e)),
            }
        },
    }
}

/// Reads a message the caller hands over encoded, before it is sent.
pub fn read_outgoing_message(bytes: &[u8]) -> (r: Result<wa::Message, String>)
    ensures
        match whatsapp_message_decode_error(bytes@) {
            None => r == Ok::<wa::Message, String>(whatsapp_message_of(bytes@)),
            Some(e) => r matches Err(m) && m@ == message_decode_message(e),
        },
{
    match decode_whatsapp_message(bytes) {
        Ok(m) => Ok(m),
        Err(e) => Err(prefixed("Failed to decode WhatsAppMessage proto: ", e)),
    }
}

/// Reads a message key the caller hands over encoded.
pub fn decode_message_key(bytes: &[u8]) -> (r: Result<WireMessageKey, String>)
    ensures
        match message_key_decode_error(bytes@) {
            None => r == Ok::<WireMessageKey, String>(message_key_of(bytes@)),
            Some(e) => r matches Err(m) && m@ == key_decode_message(e),
        },
{
    match decode_key(bytes) {
        Ok(k) => Ok(k),
        Err(e) => Err(prefixed("Failed to decode MessageKey: ", e)),
    }
}

/// Reads the message range of a chat action, when the caller hands one over
/// encoded; none stays none.
pub fn decode_sync_action_message_range(bytes: Option<&[u8]>) -> (r: Result<Option<wa::sync_action_value::SyncActionMessageRange>, String>)
    ensures
        bytes is None ==> r == Ok::<Option<wa::sync_action_value::SyncActionMessageRange>, String>(None),
        bytes matches Some(b) ==> match message_range_decode_error(b@) {
            None => r == Ok::<Option<wa::sync_action_value::SyncActionMessageRange>, String>(Some(message_range_of(b@))),
            Some(e) => r matches Err(m) && m@ == range_decode_message(e),
        },
{
    match bytes {
        None => Ok(None),
        Some(b) => match decode_range(b) {
            Ok(range) => Ok(Some(range)),
            Err(e) => Err(prefixed("Failed to decode SyncActionMessageRange: ", e)),
        },
    }
}

} // verus!
