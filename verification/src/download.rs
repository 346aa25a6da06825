//! Reading a media message handed over for download: by the name of its
//! type when that name is one of the media kinds, else by trying each media
//! kind in turn.
use vstd::prelude::*;
use crate::text::str_eq;
use crate::text::push_str;
use waproto::whatsapp::message as wa;

verus! {

#[verifier::external_type_specification]
#[verifier::external_body]
pub struct ExImageMessage(wa::ImageMessage);

#[verifier::external_type_specification]
#[verifier::external_body]
pub struct ExVideoMessage(wa::VideoMessage);

#[verifier::external_type_specification]
#[verifier::external_body]
pub struct ExDocumentMessage(wa::DocumentMessage);

#[verifier::external_type_specification]
#[verifier::external_body]
pub struct ExAudioMessage(wa::AudioMessage);

#[verifier::external_type_specification]
#[verifier::external_body]
pub struct ExStickerMessage(wa::StickerMessage);

/// Whether bytes fail to decode as an image message, and the decoder's
/// message when they do.
pub uninterp spec fn image_decode_error(bytes: Seq<u8>) -> Option<Seq<char>>;

/// As `image_decode_error`, for video messages.
pub uninterp spec fn video_decode_error(bytes: Seq<u8>) -> Option<Seq<char>>;

/// As `image_decode_error`, for document messages.
pub uninterp spec fn document_decode_error(bytes: Seq<u8>) -> Option<Seq<char>>;

/// As `image_decode_error`, for audio messages.
pub uninterp spec fn audio_decode_error(bytes: Seq<u8>) -> Option<Seq<char>>;

/// As `image_decode_error`, for sticker messages.
pub uninterp spec fn sticker_decode_error(bytes: Seq<u8>) -> Option<Seq<char>>;

/// The image message bytes decode to, when they decode.
pub uninterp spec fn image_message_of(bytes: Seq<u8>) -> wa::ImageMessage;

/// The video message bytes decode to, when they decode.
pub uninterp spec fn video_message_of(bytes: Seq<u8>) -> wa::VideoMessage;

/// The document message bytes decode to, when they decode.
pub uninterp spec fn document_message_of(bytes: Seq<u8>) -> wa::DocumentMessage;

/// The audio message bytes decode to, when they decode.
pub uninterp spec fn audio_message_of(bytes: Seq<u8>) -> wa::AudioMessage;

/// The sticker message bytes decode to, when they decode.
pub uninterp spec fn sticker_message_of(bytes: Seq<u8>) -> wa::StickerMessage;

/// `buffa::Message::decode_from_slice` for `waproto`'s image message.
/// Decoding depends on the bytes alone; the contract names whether it fails,
/// the error's text, and the decoded message.
#[verifier::external_body]
fn decode_image(bytes: &[u8]) -> (r: Result<wa::ImageMessage, String>)
    ensures
        match r {
            Ok(m) => image_decode_error(bytes@) is None && m == image_message_of(bytes@),
            Err(e) => image_decode_error(bytes@) == Some(e@),
        },
{
    <wa::ImageMessage as buffa::Message>::decode_from_slice(bytes).map_err(|e| e.to_string())
}

/// As `decode_image`, for the video message.
#[verifier::external_body]
fn decode_video(bytes: &[u8]) -> (r: Result<wa::VideoMessage, String>)
    ensures
        match r {
            Ok(m) => video_decode_error(bytes@) is None && m == video_message_of(bytes@),
            Err(e) => video_decode_error(bytes@) == Some(e@),
        },
{
    <wa::VideoMessage as buffa::Message>::decode_from_slice(bytes).map_err(|e| e.to_string())
}

/// As `decode_image`, for the document message.
#[verifier::external_body]
fn decode_document(bytes: &[u8]) -> (r: Result<wa::DocumentMessage, String>)
    ensures
        match r {
            Ok(m) => document_decode_error(bytes@) is None && m == document_message_of(bytes@),
            Err(e) => document_decode_error(bytes@) == Some(e@),
        },
{
    <wa::DocumentMessage as buffa::Message>::decode_from_slice(bytes).map_err(|e| e.to_string())
}

/// As `decode_image`, for the audio message.
#[verifier::external_body]
fn decode_audio(bytes: &[u8]) -> (r: Result<wa::AudioMessage, String>)
    ensures
        match r {
            Ok(m) => audio_decode_error(bytes@) is None && m == audio_message_of(bytes@),
            Err(e) => audio_decode_error(bytes@) == Some(e@),
        },
{
    <wa::AudioMessage as buffa::Message>::decode_from_slice(bytes).map_err(|e| e.to_string())
}

/// As `decode_image`, for the sticker message.
#[verifier::external_body]
fn decode_sticker(bytes: &[u8]) -> (r: Result<wa::StickerMessage, String>)
    ensures
        match r {
            Ok(m) => sticker_decode_error(bytes@) is None && m == sticker_message_of(bytes@),
            Err(e) => sticker_decode_error(bytes@) == Some(e@),
        },
{
    <wa::StickerMessage as buffa::Message>::decode_from_slice(bytes).map_err(|e| e.to_string())
}

/// The media kinds that can be downloaded.
#[derive(Clone, Copy, Debug, PartialEq, Eq, Structural)]
pub enum MediaKind {
    Image,
    Video,
    Document,
    Audio,
    Sticker,
}

/// The protocol type name of each media kind.
pub open spec fn kind_type_name(k: MediaKind) -> Seq<char> {
    match k {
        MediaKind::Image => "ImageMessage"@,
        MediaKind::Video => "VideoMessage"@,
        MediaKind::Document => "DocumentMessage"@,
        MediaKind::Audio => "AudioMessage"@,
        MediaKind::Sticker => "StickerMessage"@,
    }
}

/// The media kind a type name names, if any.
pub open spec fn kind_of_type_name(name: Seq<char>) -> Option<MediaKind> {
    if name == "ImageMessage"@ {
        Some(MediaKind::Image)
    } else if name == "VideoMessage"@ {
        Some(MediaKind::Video)
    } else if name == "DocumentMessage"@ {
        Some(MediaKind::Document)
    } else if name == "AudioMessage"@ {
        Some(MediaKind::Audio)
    } else if name == "StickerMessage"@ {
        Some(MediaKind::Sticker)
    } else {
        None
    }
}

/// Whether and why bytes fail to decode as a media kind.
pub open spec fn decode_error(k: MediaKind, bytes: Seq<u8>) -> Option<Seq<char>> {
    match k {
        MediaKind::Image => image_decode_error(bytes),
        MediaKind::Video => video_decode_error(bytes),
        MediaKind::Document => document_decode_error(bytes),
        MediaKind::Audio => audio_decode_error(bytes),
        MediaKind::Sticker => sticker_decode_error(bytes),
    }
}

/// The order in which the media kinds are tried when the type name names
/// none of them.
pub open spec fn fallback_order() -> Seq<MediaKind> {
    seq![MediaKind::Image, MediaKind::Video, MediaKind::Document, MediaKind::Audio, MediaKind::Sticker]
}

/// The first kind, in the order given, as which the bytes decode.
pub open spec fn first_decodable(kinds: Seq<MediaKind>, bytes: Seq<u8>) -> Option<MediaKind>
    decreases kinds.len(),
{
    if kinds.len() == 0 {
        None
    } else if decode_error(kinds[0], bytes) is None {
        Some(kinds[0])
    } else {
        first_decodable(kinds.drop_first(), bytes)
    }
}

/// The kind of a decoded media message.
pub open spec fn media_kind(m: MediaMessage) -> MediaKind {
    match m {
        MediaMessage::Image(_) => MediaKind::Image,
        MediaMessage::Video(_) => MediaKind::Video,
        MediaMessage::Document(_) => MediaKind::Document,
        MediaMessage::Audio(_) => MediaKind::Audio,
        MediaMessage::Sticker(_) => MediaKind::Sticker,
    }
}

/// A decoded media message.
pub enum MediaMessage {
    Image(wa::ImageMessage),
    Video(wa::VideoMessage),
    Document(wa::DocumentMessage),
    Audio(wa::AudioMessage),
    Sticker(wa::StickerMessage),
}

/// The message bytes decode to as a media kind, when they decode.
pub open spec fn decoded_as(k: MediaKind, bytes: Seq<u8>) -> MediaMessage {
    match k {
        MediaKind::Image => MediaMessage::Image(image_message_of(bytes)),
        MediaKind::Video => MediaMessage::Video(video_message_of(bytes)),
        MediaKind::Document => MediaMessage::Document(document_message_of(bytes)),
        MediaKind::Audio => MediaMessage::Audio(audio_message_of(bytes)),
        MediaKind::Sticker => MediaMessage::Sticker(sticker_message_of(bytes)),
    }
}

/// The message when a named kind fails to decode.
pub open spec fn named_decode_message(k: MediaKind, error: Seq<char>) -> Seq<char> {
    "Failed to decode "@ + kind_type_name(k) + ": "@ + error
}

/// The message when no kind decodes.
pub open spec fn unsupported_media_message() -> Seq<char> {
    "Failed to decode message as supported media message"@
}

/// The outcome of reading media bytes under a type name: the named kind, or
/// failing that the first kind that decodes.
pub open spec fn media_outcome(descriptor_name: Seq<char>, bytes: Seq<u8>) -> Result<MediaKind, Seq<char>> {
    match kind_of_type_name(descriptor_name) {
        Some(k) => match decode_error(k, bytes) {
            None => Ok(k),
            Some(e) => Err(named_decode_message(k, e)),
        },
        None => match first_decodable(fallback_order(), bytes) {
            Some(k) => Ok(k),
            None => Err(unsupported_media_message()),
        },
    }
}

fn decode_kind(k: MediaKind, bytes: &[u8]) -> (r: Result<MediaMessage, String>)
    ensures
        match r {
            Ok(m) => m == decoded_as(k, bytes@) && decode_error(k, bytes@) is None,
            Err(e) => decode_error(k, bytes@) == Some(e@),
        },
{
    match k {
        MediaKind::Image => match decode_image(bytes) {
            Ok(m) => Ok(MediaMessage::Image(m)),
            Err(e) => Err(e),
        },
        MediaKind::Video => match decode_video(bytes) {
            Ok(m) => Ok(MediaMessage::Video(m)),
            Err(e) => Err(e),
        },
        MediaKind::Document => match decode_document(bytes) {
            Ok(m) => Ok(MediaMessage::Document(m)),
            Err(e) => Err(e),
        },
        MediaKind::Audio => match decode_audio(bytes) {
            Ok(m) => Ok(MediaMessage::Audio(m)),
            Err(e) => Err(e),
        },
        MediaKind::Sticker => match decode_sticker(bytes) {
            Ok(m) => Ok(MediaMessage::Sticker(m)),
            Err(e) => Err(e),
        },
    }
}

/// The media kind a type name names.
pub fn kind_for_descriptor_name(name: &str) -> (r: Option<MediaKind>)
    ensures
        r == kind_of_type_name(name@),
{
    if str_eq(name, "ImageMessage") {
        Some(MediaKind::Image)
    } else if str_eq(name, "VideoMessage") {
        Some(MediaKind::Video)
    } else if str_eq(name, "DocumentMessage") {
        Some(MediaKind::Document)
    } else if str_eq(name, "AudioMessage") {
        Some(MediaKind::Audio)
    } else if str_eq(name, "StickerMessage") {
        Some(MediaKind::Sticker)
    } else {
        None
    }
}

fn type_name_of(k: MediaKind) -> (r: &'static str)
    ensures
        r@ == kind_type_name(k),
{
    match k {
        MediaKind::Image => "ImageMessage",
        MediaKind::Video => "VideoMessage",
        MediaKind::Document => "DocumentMessage",
        MediaKind::Audio => "AudioMessage",
        MediaKind::Sticker => "StickerMessage",
    }
}

/// Reads media bytes under the type name the caller gave: a named media
/// kind must decode as that kind; any other name falls back to the first
/// kind, image, video, document, audio then sticker, that decodes. The
/// message returned is what the bytes decode to as that kind.
pub fn decode_media(descriptor_name: &str, bytes: &[u8]) -> (r: Result<MediaMessage, String>)
    ensures
        match media_outcome(descriptor_name@, bytes@) {
            Ok(k) => r matches Ok(m) && m == decoded_as(k, bytes@) && media_kind(m) == k,
            Err(e) => r matches Err(m) && m@ == e,
        },
{
    match kind_for_descriptor_name(descriptor_name) {
        Some(k) => match decode_kind(k, bytes) {
            Ok(m) => Ok(m),
            Err(e) => {
                let mut message = String::from_str("Failed to decode ");
                push_str(&mut message, type_name_of(k));
                push_str(&mut message, ": ");
                push_str(&mut message, e.as_str());
                Err(message)
            },
        },
        None => {
            let order: [MediaKind; 5] = [MediaKind::Image, MediaKind::Video, MediaKind::Document, MediaKind::Audio, MediaKind::Sticker];
            let ghost all = fallback_order();
            assert(order@ =~= all);
            assert(all.skip(0) =~= all);
            let mut i: usize = 0;
            while i < 5
                invariant
                    i <= 5,
                    order@ == all,
                    all == fallback_order(),
                    kind_of_type_name(descriptor_name@) is None,
                    first_decodable(all, bytes@) == first_decodable(all.skip(i as int), bytes@),
                decreases 5 - i,
            {
                let k = order[i];
                assert(all.skip(i as int)[0] == k);
                assert(all.skip(i as int).drop_first() =~= all.skip(i + 1));
                match decode_kind(k, bytes) {
                    Ok(m) => {
                        assert(first_decodable(all.skip(i as int), bytes@) == Some(k));
                        return Ok(m);
                    },
                    Err(_) => {},
                }
                i = i + 1;
            }
            assert(all.skip(5) =~= Seq::<MediaKind>::empty());
            Err(String::from_str("Failed to decode message as supported media message"))
        },
    }
}

} // verus!
