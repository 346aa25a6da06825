//! The media contract of calls: mono signed 16-bit little-endian PCM at
//! 16 kHz in frames of 960 samples (1920 bytes, 60 ms), decoded audio
//! brought to that form, and the pacing of H.264 video.
use vstd::prelude::*;
use crate::text::{decimal, push_decimal, push_str};
use wacore::voip::AnnexBAuSplitter;

verus! {

pub const AUDIO_FRAME_SAMPLES: usize = 960;
pub const AUDIO_FRAME_BYTES: usize = 1920;
pub const DEFAULT_CAPACITY: usize = 6;
pub const TARGET_RATE: usize = 16000;
/// The RTP clock rate of video, in ticks per second.
pub const VIDEO_CLOCK: u32 = 90000;

/// The signed value of a little-endian byte pair.
pub open spec fn le16(lo: u8, hi: u8) -> int {
    let v = hi as int * 256 + lo as int;
    if v >= 32768 { v - 65536 } else { v }
}

/// The low byte of a sample's two's-complement form.
pub open spec fn low_byte(s: i16) -> u8 {
    ((if s < 0 { s as int + 65536 } else { s as int }) % 256) as u8
}

/// The high byte of a sample's two's-complement form.
pub open spec fn high_byte(s: i16) -> u8 {
    ((if s < 0 { s as int + 65536 } else { s as int }) / 256) as u8
}

/// The samples a byte string holds, two little-endian bytes each.
pub open spec fn pcm16_decode(bytes: Seq<u8>) -> Seq<i16> {
    Seq::new(bytes.len() / 2, |i: int| le16(bytes[2 * i], bytes[2 * i + 1]) as i16)
}

/// The little-endian bytes of samples.
pub open spec fn pcm16_encode(samples: Seq<i16>) -> Seq<u8> {
    Seq::new(samples.len() * 2, |k: int| if k % 2 == 0 { low_byte(samples[k / 2]) } else { high_byte(samples[k / 2]) })
}

fn sample_from_le(lo: u8, hi: u8) -> (s: i16)
    ensures
        s as int == le16(lo, hi),
{
    if hi >= 128 {
        ((hi as i32 - 256) * 256 + lo as i32) as i16
    } else {
        (hi as i32 * 256 + lo as i32) as i16
    }
}

fn sample_to_le(s: i16) -> (r: (u8, u8))
    ensures
        r.0 == low_byte(s),
        r.1 == high_byte(s),
{
    let u: u32 = if s < 0 { (s as i32 + 65536) as u32 } else { s as u32 };
    ((u % 256) as u8, (u / 256) as u8)
}

/// The message that refuses an audio frame of the wrong size.
pub open spec fn frame_size_message(len: nat) -> Seq<char> {
    "audio frame must be exactly 1920 bytes (960 PCM16 samples), got "@ + decimal(len)
}

/// Decodes one audio frame. A frame of other than 1920 bytes is refused
/// with a message giving its length.
pub fn pcm16_from_bytes(bytes: &[u8]) -> (r: Result<Vec<i16>, String>)
    ensures
        bytes@.len() == AUDIO_FRAME_BYTES ==> (r matches Ok(v) && v@ == pcm16_decode(bytes@)),
        bytes@.len() != AUDIO_FRAME_BYTES ==> (r matches Err(m) && m@ == frame_size_message(bytes@.len())),
{
    if bytes.len() != AUDIO_FRAME_BYTES {
        let mut msg = String::from_str("audio frame must be exactly 1920 bytes (960 PCM16 samples), got ");
        push_decimal(&mut msg, bytes.len() as u64);
        return Err(msg);
    }
    let mut out: Vec<i16> = Vec::new();
    let mut i: usize = 0;
    while i < AUDIO_FRAME_SAMPLES
        invariant
            bytes@.len() == AUDIO_FRAME_BYTES,
            i <= AUDIO_FRAME_SAMPLES,
            out@ =~= pcm16_decode(bytes@).take(i as int),
        decreases AUDIO_FRAME_SAMPLES - i,
    {
        let s = sample_from_le(bytes[2 * i], bytes[2 * i + 1]);
        out.push(s);
        i = i + 1;
    }
    assert(pcm16_decode(bytes@).take(AUDIO_FRAME_SAMPLES as int) =~= pcm16_decode(bytes@));
    Ok(out)
}

/// Encodes samples as little-endian bytes.
pub fn pcm16_to_bytes(frame: &[i16]) -> (r: Vec<u8>)
    requires
        frame@.len() * 2 <= usize::MAX,
    ensures
        r@ == pcm16_encode(frame@),
{
    let mut out: Vec<u8> = Vec::new();
    let mut i: usize = 0;
    while i < frame.len()
        invariant
            frame@.len() * 2 <= usize::MAX,
            i <= frame@.len(),
            out@ =~= pcm16_encode(frame@).take(2 * i as int),
        decreases frame@.len() - i,
    {
        let (lo, hi) = sample_to_le(frame[i]);
        out.push(lo);
        out.push(hi);
        assert(pcm16_encode(frame@).take(2 * (i + 1) as int) =~= pcm16_encode(frame@).take(2 * i as int).push(lo).push(hi));
        i = i + 1;
    }
    assert(pcm16_encode(frame@).take(2 * i as int) =~= pcm16_encode(frame@));
    out
}

pub proof fn lemma_sample_round_trip(s: i16)
    ensures
        le16(low_byte(s), high_byte(s)) == s as int,
{
}

pub proof fn lemma_bytes_round_trip(lo: u8, hi: u8)
    ensures
        low_byte(le16(lo, hi) as i16) == lo,
        high_byte(le16(lo, hi) as i16) == hi,
{
}

/// Encoding samples and decoding the bytes gives the samples back.
pub proof fn lemma_pcm16_encode_decode(samples: Seq<i16>)
    ensures
        pcm16_decode(pcm16_encode(samples)) == samples,
{
    let e = pcm16_encode(samples);
    assert forall|i: int| 0 <= i < samples.len() implies pcm16_decode(e)[i] == samples[i] by {
        assert((2 * i) % 2 == 0);
        assert((2 * i + 1) % 2 == 1);
        assert((2 * i) / 2 == i);
        assert((2 * i + 1) / 2 == i);
        lemma_sample_round_trip(samples[i]);
    }
    assert(pcm16_decode(e) =~= samples);
}

/// Decoding an even-length byte string and encoding the samples gives the
/// bytes back.
pub proof fn lemma_pcm16_decode_encode(bytes: Seq<u8>)
    requires
        bytes.len() % 2 == 0,
    ensures
        pcm16_encode(pcm16_decode(bytes)) == bytes,
{
    let d = pcm16_decode(bytes);
    let e = pcm16_encode(d);
    assert forall|k: int| 0 <= k < bytes.len() implies e[k] == bytes[k] by {
        let i = k / 2;
        lemma_bytes_round_trip(bytes[2 * i], bytes[2 * i + 1]);
        if k % 2 == 0 {
            assert(k == 2 * i);
        } else {
            assert(k == 2 * i + 1);
        }
    }
    assert(e =~= bytes);
}

/// The message that refuses a frame rate outside 1..=60.
pub open spec fn fps_message() -> Seq<char> {
    "fps must be between 1 and 60"@
}

/// The RTP timestamp step between frames at a frame rate of 1 to 60 frames
/// per second; other rates are refused.
pub fn video_stride(fps: u32) -> (r: Result<u32, String>)
    ensures
        1 <= fps <= 60 ==> r == Ok::<u32, String>((VIDEO_CLOCK / fps) as u32),
        !(1 <= fps <= 60) ==> (r matches Err(m) && m@ == fps_message()),
{
    if fps == 0 || fps > 60 {
        return Err(String::from_str("fps must be between 1 and 60"));
    }
    Ok(VIDEO_CLOCK / fps)
}

/// The timestamp step of a video source: the requested one, at least 1.
pub fn effective_stride(stride: u32) -> (r: u32)
    ensures
        r == if stride == 0 { 1 } else { stride },
{
    if stride == 0 { 1 } else { stride }
}

/// The capacity of a media channel: the requested one, at least 1.
pub fn channel_capacity(capacity: usize) -> (r: usize)
    ensures
        r == if capacity == 0 { 1 } else { capacity },
{
    if capacity == 0 { 1 } else { capacity }
}

/// The message that refuses an empty video frame.
pub open spec fn empty_video_message() -> Seq<char> {
    "video frame cannot be empty"@
}

/// Accepts a video access unit unless it is empty.
pub fn check_video_frame(data: Vec<u8>) -> (r: Result<Vec<u8>, String>)
    ensures
        data@.len() > 0 ==> (r matches Ok(d) && d@ == data@),
        data@.len() == 0 ==> (r matches Err(m) && m@ == empty_video_message()),
{
    if data.len() == 0 {
        Err(String::from_str("video frame cannot be empty"))
    } else {
        Ok(data)
    }
}

#[verifier::external_type_specification]
#[verifier::external_body]
pub struct ExAnnexBAuSplitter(AnnexBAuSplitter);

/// The bytes a splitter holds that no access unit has taken yet.
pub uninterp spec fn splitter_buffered(s: AnnexBAuSplitter) -> Seq<u8>;

/// The splitter's cap on what it holds (`H264_MAX_AU_BYTES`, 4 MiB): a
/// buffer that grows past it is dropped.
pub open spec fn splitter_cap() -> int {
    4194304int
}

/// Byte strings one after another.
pub open spec fn joined(units: Seq<Seq<u8>>) -> Seq<u8>
    decreases units.len(),
{
    if units.len() == 0 {
        Seq::empty()
    } else {
        joined(units.drop_last()) + units.last()
    }
}

/// The values of a list of byte strings.
pub open spec fn unit_views(units: Seq<Vec<u8>>) -> Seq<Seq<u8>> {
    units.map_values(|u: Vec<u8>| u@)
}

/// What a push of `data` leaves, given what was held before, the units
/// handed out and what is held after: the units followed by what is held
/// are exactly what was held followed by `data`. Only when that exceeds the
/// cap may the held bytes be dropped instead; the units are then a prefix of
/// it and nothing stays held.
pub open spec fn split_keeps_bytes(before: Seq<u8>, data: Seq<u8>, units: Seq<Seq<u8>>, after: Seq<u8>) -> bool {
    ||| joined(units) + after == before + data
    ||| (before.len() + data.len() > splitter_cap() && after.len() == 0 && joined(units).is_prefix_of(before + data))
}

/// An access unit delimiter at `p`: the start code 0, 0, 1 followed by a
/// NAL header of type 9.
pub open spec fn aud_at(s: Seq<u8>, p: int) -> bool {
    0 <= p && p + 3 < s.len() && s[p] == 0 && s[p + 1] == 0 && s[p + 2] == 1 && s[p + 3] % 32 == 9
}

/// Bytes that begin with an access unit delimiter, with a start code of
/// three bytes or of four (a zero before it).
pub open spec fn starts_with_aud(s: Seq<u8>) -> bool {
    aud_at(s, 0) || (s.len() > 0 && s[0] == 0 && aud_at(s, 1))
}

/// Bytes with no access unit delimiter but, perhaps, the one they begin with.
pub open spec fn no_inner_aud(s: Seq<u8>) -> bool {
    forall|p: int| 1 <= p && #[trigger] aud_at(s, p) ==> (p == 1 && s[0] == 0)
}

/// Where a push cuts: every unit holds no delimiter but the one it begins
/// with; every unit but the first begins with a delimiter, and so does the
/// first when what was held did; what stays held again holds no delimiter
/// but its first, and begins with one when a unit was cut and the held
/// bytes were not dropped.
pub open spec fn split_at_delimiters(before: Seq<u8>, units: Seq<Seq<u8>>, after: Seq<u8>) -> bool {
    &&& forall|i: int| 0 <= i < units.len() ==> no_inner_aud(#[trigger] units[i])
    &&& forall|i: int| 0 <= i < units.len() && (i > 0 || starts_with_aud(before)) ==> starts_with_aud(#[trigger] units[i])
    &&& no_inner_aud(after)
    &&& units.len() > 0 && after.len() > 0 ==> starts_with_aud(after)
}

/// `AnnexBAuSplitter::default`: a splitter with nothing buffered.
#[verifier::external_body]
fn new_splitter() -> (r: AnnexBAuSplitter)
    ensures
        splitter_buffered(r) == Seq::<u8>::empty(),
{
    AnnexBAuSplitter::default()
}

/// `AnnexBAuSplitter::push`: appends a chunk of an H.264 Annex-B stream to
/// the buffer and cuts from its front the access units it completes (at each
/// access unit delimiter after the first byte), each non-empty. No byte is
/// invented or reordered: the units followed by what stays buffered are the
/// old buffer followed by the chunk, except that a buffer grown past the cap
/// is dropped, which can only happen when old buffer and chunk together
/// exceed it. It cuts at every access unit delimiter after the first byte
/// of what it holds (folding a zero before the start code into the cut),
/// so that no unit and nothing held holds a delimiter but its first; this
/// relies on what is held holding none, as every splitter that only ever
/// went through `default`, `push` and `finish` does.
#[verifier::external_body]
fn splitter_push(splitter: &mut AnnexBAuSplitter, data: &[u8]) -> (units: Vec<Vec<u8>>)
    requires
        no_inner_aud(splitter_buffered(*old(splitter))),
    ensures
        forall|i: int| 0 <= i < units@.len() ==> #[trigger] units@[i]@.len() > 0,
        split_keeps_bytes(
            splitter_buffered(*old(splitter)),
            data@,
            unit_views(units@),
            splitter_buffered(*final(splitter)),
        ),
        split_at_delimiters(splitter_buffered(*old(splitter)), unit_views(units@), splitter_buffered(*final(splitter))),
{
    let mut units = Vec::new();
    splitter.push(data, &mut units);
    units
}

/// `AnnexBAuSplitter::finish`: takes the whole buffer as the last access
/// unit, or gives nothing when the buffer is empty; the buffer is empty
/// afterwards.
#[verifier::external_body]
fn splitter_finish(splitter: &mut AnnexBAuSplitter) -> (unit: Option<Vec<u8>>)
    ensures
        splitter_buffered(*old(splitter)).len() == 0 ==> unit is None,
        splitter_buffered(*old(splitter)).len() > 0 ==> (unit matches Some(u) && u@ == splitter_buffered(*old(splitter))),
        splitter_buffered(*final(splitter)) == Seq::<u8>::empty(),
{
    splitter.finish()
}

/// Cuts the byte stream of an H.264 encoder into access units, the frames
/// a video call sends.
pub struct VideoFeed {
    splitter: AnnexBAuSplitter,
}

impl VideoFeed {
    /// The bytes of the stream received but not yet handed out as a frame.
    pub closed spec fn buffered(self) -> Seq<u8> {
        splitter_buffered(self.splitter)
    }

    /// What is buffered holds no access unit delimiter but its first.
    #[verifier::type_invariant]
    closed spec fn cut_at_delimiters(self) -> bool {
        no_inner_aud(splitter_buffered(self.splitter))
    }

    pub fn new() -> (r: Self)
        ensures
            r.buffered() == Seq::<u8>::empty(),
    {
        VideoFeed { splitter: new_splitter() }
    }

    /// Adds a chunk of the stream; returns the frames it completes, none of
    /// them empty. The frames followed by what stays buffered are what was
    /// buffered followed by the chunk, unless together they exceed the cap
    /// and the buffer is dropped. The stream is cut at each access unit
    /// delimiter: each frame holds none but the one it begins with, each
    /// frame but the first begins with one (the first too when what was
    /// buffered did), and what stays buffered begins with one once a frame
    /// was cut.
    pub fn push(&mut self, chunk: &[u8]) -> (frames: Vec<Vec<u8>>)
        ensures
            forall|i: int| 0 <= i < frames@.len() ==> #[trigger] frames@[i]@.len() > 0,
            split_keeps_bytes(old(self).buffered(), chunk@, unit_views(frames@), final(self).buffered()),
            split_at_delimiters(old(self).buffered(), unit_views(frames@), final(self).buffered()),
    {
        proof { use_type_invariant(&*self); }
        let mut splitter = new_splitter();
        std::mem::swap(&mut splitter, &mut self.splitter);
        let frames = splitter_push(&mut splitter, chunk);
        self.splitter = splitter;
        frames
    }

    /// Ends the stream; returns what remains buffered as its last frame, if
    /// any bytes remain, and leaves nothing buffered. The frame holds no
    /// access unit delimiter but its first.
    pub fn finish(&mut self) -> (frame: Option<Vec<u8>>)
        ensures
            old(self).buffered().len() == 0 ==> frame is None,
            old(self).buffered().len() > 0 ==> (frame matches Some(f) && f@ == old(self).buffered()),
            frame matches Some(f) ==> no_inner_aud(f@),
            final(self).buffered() == Seq::<u8>::empty(),
    {
        proof { use_type_invariant(&*self); }
        let mut splitter = new_splitter();
        std::mem::swap(&mut splitter, &mut self.splitter);
        let frame = splitter_finish(&mut splitter);
        self.splitter = splitter;
        frame
    }
}

/// The index of the source sample for output sample `i` when bringing a
/// stream of `len` samples at `rate` to 16 kHz.
pub open spec fn source_index(i: int, rate: int, len: int) -> int {
    let j = i * rate / 16000;
    if j < len - 1 { j } else { len - 1 }
}

/// A stream brought to 16 kHz by picking the nearest earlier sample.
pub open spec fn resampled(samples: Seq<i16>, rate: int) -> Seq<i16> {
    if rate == 16000 {
        samples
    } else {
        Seq::new(((samples.len() * 16000) as int / rate) as nat, |i: int| samples[source_index(i, rate, samples.len() as int)])
    }
}

proof fn lemma_index_fits(i: int, rate: int, len: int)
    requires
        rate > 0,
        len >= 0,
        0 <= i < (len * 16000) / rate,
    ensures
        i * rate <= len * 16000,
        0 <= i * rate / 16000,
{
    assert(i * rate <= len * 16000) by (nonlinear_arith)
        requires
            rate > 0,
            len >= 0,
            0 <= i,
            i < len * 16000 / rate,
    {
        assert(i + 1 <= len * 16000 / rate);
        assert((i + 1) * rate <= (len * 16000 / rate) * rate);
        assert((len * 16000 / rate) * rate <= len * 16000);
    }
    assert(0 <= i * rate) by (nonlinear_arith)
        requires
            rate > 0,
            0 <= i,
    ;
}

/// Brings decoded samples at `rate` Hz to 16 kHz.
pub fn resample_to_16k(samples: Vec<i16>, rate: usize) -> (r: Vec<i16>)
    requires
        rate > 0,
        samples@.len() * 16000 <= usize::MAX,
    ensures
        r@ == resampled(samples@, rate as int),
{
    if rate == TARGET_RATE {
        return samples;
    }
    let len = samples.len();
    let count = len * 16000 / rate;
    let mut out: Vec<i16> = Vec::new();
    let mut i: usize = 0;
    while i < count
        invariant
            rate > 0,
            rate != 16000,
            len == samples@.len(),
            len * 16000 <= usize::MAX,
            count as int == (len * 16000) as int / rate as int,
            i <= count,
            out@ =~= resampled(samples@, rate as int).take(i as int),
        decreases count - i,
    {
        proof { lemma_index_fits(i as int, rate as int, len as int); }
        let j = i * rate / 16000;
        let last = len - 1;
        let k = if j < last { j } else { last };
        out.push(samples[k]);
        i = i + 1;
    }
    assert(resampled(samples@, rate as int).take(count as int) =~= resampled(samples@, rate as int));
    out
}

/// Sample conversions from the sample formats a decoder may produce to
/// signed 16 bits; the value the formula gives for each source sample.
pub open spec fn from_u8(x: u8) -> int {
    (x as int - 128) * 256
}

pub open spec fn from_u16(x: u16) -> int {
    x as int - 32768
}

/// Unsigned 24-bit samples keep their top 16 bits, read as two's
/// complement.
pub open spec fn from_u24(x: u32) -> int {
    let v = x as int / 256;
    if v >= 32768 { v - 65536 } else { v }
}

pub open spec fn from_u32(x: u32) -> int {
    (x as int - 2147483648) / 65536
}

pub open spec fn from_i8(x: i8) -> int {
    x as int * 256
}

pub open spec fn from_i24(x: i32) -> int {
    x as int / 256
}

pub open spec fn from_i32(x: i32) -> int {
    x as int / 65536
}

/// Floor division of a signed value by a positive power of two.
fn floor_div(x: i64, d: i64) -> (r: i64)
    requires
        d == 256 || d == 65536,
    ensures
        r as int == x as int / d as int,
{
    if x >= 0 {
        x / d
    } else {
        let q = (-(x + 1)) / d;
        assert(-(x as int + 1) == q * d + (-(x as int + 1)) % (d as int));
        -q - 1
    }
}

pub fn pcm16_from_u8(v: &[u8]) -> (r: Vec<i16>)
    ensures
        r@.len() == v@.len(),
        forall|i: int| 0 <= i < v@.len() ==> r@[i] as int == from_u8(#[trigger] v@[i]),
{
    let mut out: Vec<i16> = Vec::new();
    let mut i: usize = 0;
    while i < v.len()
        invariant
            i <= v@.len(),
            out@.len() == i,
            forall|k: int| 0 <= k < i ==> out@[k] as int == from_u8(#[trigger] v@[k]),
        decreases v@.len() - i,
    {
        out.push(((v[i] as i32 - 128) * 256) as i16);
        i = i + 1;
    }
    out
}

pub fn pcm16_from_u16(v: &[u16]) -> (r: Vec<i16>)
    ensures
        r@.len() == v@.len(),
        forall|i: int| 0 <= i < v@.len() ==> r@[i] as int == from_u16(#[trigger] v@[i]),
{
    let mut out: Vec<i16> = Vec::new();
    let mut i: usize = 0;
    while i < v.len()
        invariant
            i <= v@.len(),
            out@.len() == i,
            forall|k: int| 0 <= k < i ==> out@[k] as int == from_u16(#[trigger] v@[k]),
        decreases v@.len() - i,
    {
        out.push((v[i] as i32 - 32768) as i16);
        i = i + 1;
    }
    out
}

/// Unsigned 24-bit samples, given by their value in the low 24 bits.
pub fn pcm16_from_u24(v: &[u32]) -> (r: Vec<i16>)
    requires
        forall|i: int| 0 <= i < v@.len() ==> #[trigger] v@[i] < 0x100_0000,
    ensures
        r@.len() == v@.len(),
        forall|i: int| 0 <= i < v@.len() ==> r@[i] as int == from_u24(#[trigger] v@[i]),
{
    let mut out: Vec<i16> = Vec::new();
    let mut i: usize = 0;
    while i < v.len()
        invariant
            forall|k: int| 0 <= k < v@.len() ==> #[trigger] v@[k] < 0x100_0000,
            i <= v@.len(),
            out@.len() == i,
            forall|k: int| 0 <= k < i ==> out@[k] as int == from_u24(#[trigger] v@[k]),
        decreases v@.len() - i,
    {
        let top = (v[i] / 256) as i32;
        let s: i16 = if top >= 32768 { (top - 65536) as i16 } else { top as i16 };
        out.push(s);
        i = i + 1;
    }
    out
}

pub fn pcm16_from_u32(v: &[u32]) -> (r: Vec<i16>)
    ensures
        r@.len() == v@.len(),
        forall|i: int| 0 <= i < v@.len() ==> r@[i] as int == from_u32(#[trigger] v@[i]),
{
    let mut out: Vec<i16> = Vec::new();
    let mut i: usize = 0;
    while i < v.len()
        invariant
            i <= v@.len(),
            out@.len() == i,
            forall|k: int| 0 <= k < i ==> out@[k] as int == from_u32(#[trigger] v@[k]),
        decreases v@.len() - i,
    {
        let q = floor_div(v[i] as i64 - 2147483648, 65536);
        out.push(q as i16);
        i = i + 1;
    }
    out
}

pub fn pcm16_from_i8(v: &[i8]) -> (r: Vec<i16>)
    ensures
        r@.len() == v@.len(),
        forall|i: int| 0 <= i < v@.len() ==> r@[i] as int == from_i8(#[trigger] v@[i]),
{
    let mut out: Vec<i16> = Vec::new();
    let mut i: usize = 0;
    while i < v.len()
        invariant
            i <= v@.len(),
            out@.len() == i,
            forall|k: int| 0 <= k < i ==> out@[k] as int == from_i8(#[trigger] v@[k]),
        decreases v@.len() - i,
    {
        out.push((v[i] as i16) * 256);
        i = i + 1;
    }
    out
}

pub fn pcm16_from_i16(v: &[i16]) -> (r: Vec<i16>)
    ensures
        r@ == v@,
{
    let mut out: Vec<i16> = Vec::new();
    let mut i: usize = 0;
    while i < v.len()
        invariant
            i <= v@.len(),
            out@ =~= v@.take(i as int),
        decreases v@.len() - i,
    {
        out.push(v[i]);
        i = i + 1;
    }
    assert(v@.take(i as int) =~= v@);
    out
}

/// Signed 24-bit samples, given by their value.
pub fn pcm16_from_i24(v: &[i32]) -> (r: Vec<i16>)
    requires
        forall|i: int| 0 <= i < v@.len() ==> -0x80_0000 <= #[trigger] v@[i] < 0x80_0000,
    ensures
        r@.len() == v@.len(),
        forall|i: int| 0 <= i < v@.len() ==> r@[i] as int == from_i24(#[trigger] v@[i]),
{
    let mut out: Vec<i16> = Vec::new();
    let mut i: usize = 0;
    while i < v.len()
        invariant
            forall|k: int| 0 <= k < v@.len() ==> -0x80_0000 <= #[trigger] v@[k] < 0x80_0000,
            i <= v@.len(),
            out@.len() == i,
            forall|k: int| 0 <= k < i ==> out@[k] as int == from_i24(#[trigger] v@[k]),
        decreases v@.len() - i,
    {
        let q = floor_div(v[i] as i64, 256);
        out.push(q as i16);
        i = i + 1;
    }
    out
}

pub fn pcm16_from_i32(v: &[i32]) -> (r: Vec<i16>)
    ensures
        r@.len() == v@.len(),
        forall|i: int| 0 <= i < v@.len() ==> r@[i] as int == from_i32(#[trigger] v@[i]),
{
    let mut out: Vec<i16> = Vec::new();
    let mut i: usize = 0;
    while i < v.len()
        invariant
            i <= v@.len(),
            out@.len() == i,
            forall|k: int| 0 <= k < i ==> out@[k] as int == from_i32(#[trigger] v@[k]),
        decreases v@.len() - i,
    {
        let q = floor_div(v[i] as i64, 65536);
        out.push(q as i16);
        i = i + 1;
    }
    out
}

/// Cuts a sample stream into whole frames, keeping the remainder for the
/// next batch.
pub struct FrameAssembler {
    carry: Vec<i16>,
}

/// The concatenation of frames.
pub open spec fn flatten(frames: Seq<Seq<i16>>) -> Seq<i16>
    decreases frames.len(),
{
    if frames.len() == 0 {
        Seq::empty()
    } else {
        flatten(frames.drop_last()) + frames.last()
    }
}

pub open spec fn frame_views(frames: Seq<Vec<i16>>) -> Seq<Seq<i16>> {
    frames.map_values(|f: Vec<i16>| f@)
}

impl FrameAssembler {
    /// The samples received but not yet framed.
    pub closed spec fn pending(self) -> Seq<i16> {
        self.carry@
    }

    #[verifier::type_invariant]
    closed spec fn short_carry(self) -> bool {
        self.carry@.len() < AUDIO_FRAME_SAMPLES
    }

    pub fn new() -> (r: Self)
        ensures
            r.pending().len() == 0,
    {
        FrameAssembler { carry: Vec::new() }
    }

    /// Adds samples and returns the frames now complete, in order. The frames
    /// followed by what stays pending are exactly what was pending followed
    /// by the new samples.
    pub fn push(&mut self, samples: &[i16]) -> (frames: Vec<Vec<i16>>)
        ensures
            forall|f: int| 0 <= f < frames@.len() ==> #[trigger] frames@[f]@.len() == AUDIO_FRAME_SAMPLES,
            flatten(frame_views(frames@)) + final(self).pending() == old(self).pending() + samples@,
            final(self).pending().len() < AUDIO_FRAME_SAMPLES,
            frames@.len() == (old(self).pending().len() + samples@.len()) as int / AUDIO_FRAME_SAMPLES as int,
    {
        proof { use_type_invariant(&*self); }
        let mut frames: Vec<Vec<i16>> = Vec::new();
        let ghost old_pending = self.carry@;
        let mut current: Vec<i16> = self.carry.clone();
        assert(current@ == old_pending);
        let mut i: usize = 0;
        while i < samples.len()
            invariant
                i <= samples@.len(),
                current@.len() < AUDIO_FRAME_SAMPLES,
                forall|f: int| 0 <= f < frames@.len() ==> #[trigger] frames@[f]@.len() == AUDIO_FRAME_SAMPLES,
                flatten(frame_views(frames@)) + current@ == old_pending + samples@.take(i as int),
            decreases samples@.len() - i,
        {
            let ghost before_frames = frame_views(frames@);
            let ghost before_current = current@;
            current.push(samples[i]);
            assert(samples@.take(i + 1) =~= samples@.take(i as int).push(samples@[i as int]));
            assert(flatten(before_frames) + current@ =~= (flatten(before_frames) + before_current).push(samples@[i as int]));
            assert(flatten(before_frames) + current@ =~= old_pending + samples@.take(i + 1));
            if current.len() == AUDIO_FRAME_SAMPLES {
                let full = current;
                current = Vec::new();
                let ghost fv = full@;
                frames.push(full);
                assert(frame_views(frames@) =~= before_frames.push(fv));
                assert(frame_views(frames@).drop_last() =~= before_frames);
                assert(flatten(frame_views(frames@)) == flatten(before_frames) + fv);
                assert(flatten(frame_views(frames@)) + current@ =~= flatten(before_frames) + fv);
            }
            assert(flatten(frame_views(frames@)) + current@ =~= old_pending + samples@.take(i + 1));
            i = i + 1;
        }
        assert(samples@.take(i as int) =~= samples@);
        proof {
            let fv = frame_views(frames@);
            assert forall|f: int| 0 <= f < fv.len() implies #[trigger] fv[f].len() == AUDIO_FRAME_SAMPLES by {
                assert(fv[f] == frames@[f]@);
            }
            assert((flatten(fv) + current@).len() == (old_pending + samples@).len());
            lemma_full_frames_count(fv, current@, (old_pending.len() + samples@.len()) as int);
        }
        self.carry = current;
        frames
    }

    /// The last, partial frame: the pending samples followed by silence up to
    /// a full frame; nothing when no sample is pending.
    pub fn finish(&mut self) -> (r: Option<Vec<i16>>)
        ensures
            old(self).pending().len() == 0 ==> r is None,
            old(self).pending().len() > 0 ==> (r matches Some(f) && f@.len() == AUDIO_FRAME_SAMPLES
                && f@.take(old(self).pending().len() as int) == old(self).pending()
                && forall|k: int| old(self).pending().len() <= k < AUDIO_FRAME_SAMPLES ==> f@[k] == 0),
            final(self).pending().len() == 0,
    {
        proof { use_type_invariant(&*self); }
        let mut frame = self.carry.clone();
        self.carry = Vec::new();
        if frame.len() == 0 {
            return None;
        }
        let ghost pending = frame@;
        while frame.len() < AUDIO_FRAME_SAMPLES
            invariant
                pending.len() <= frame@.len() <= AUDIO_FRAME_SAMPLES,
                frame@.take(pending.len() as int) == pending,
                forall|k: int| pending.len() <= k < frame@.len() ==> frame@[k] == 0,
            decreases AUDIO_FRAME_SAMPLES - frame@.len(),
        {
            frame.push(0);
            assert(frame@.take(pending.len() as int) =~= pending);
        }
        Some(frame)
    }
}

/// Whole frames hold 960 samples each.
proof fn lemma_flatten_len(frames: Seq<Seq<i16>>)
    requires
        forall|f: int| 0 <= f < frames.len() ==> #[trigger] frames[f].len() == AUDIO_FRAME_SAMPLES,
    ensures
        flatten(frames).len() == frames.len() * AUDIO_FRAME_SAMPLES,
    decreases frames.len(),
{
    if frames.len() > 0 {
        lemma_flatten_len(frames.drop_last());
    }
}

/// Whole frames followed by fewer than 960 samples: the number of frames is
/// the total divided by 960.
proof fn lemma_full_frames_count(frames: Seq<Seq<i16>>, rest: Seq<i16>, total: int)
    requires
        forall|f: int| 0 <= f < frames.len() ==> #[trigger] frames[f].len() == AUDIO_FRAME_SAMPLES,
        rest.len() < AUDIO_FRAME_SAMPLES,
        flatten(frames).len() + rest.len() == total,
    ensures
        frames.len() == total / AUDIO_FRAME_SAMPLES as int,
{
    lemma_flatten_len(frames);
    let m = frames.len() as int;
    let r = rest.len() as int;
    assert(m == (m * 960 + r) / 960) by (nonlinear_arith)
        requires
            0 <= r < 960,
            m >= 0,
    ;
}

/// The samples of two runs of frames, one after the other, are the samples
/// of the first run followed by those of the second; with the contract of
/// `FrameAssembler::push` this carries over any number of batches.
pub proof fn lemma_flatten_append(a: Seq<Seq<i16>>, b: Seq<Seq<i16>>)
    ensures
        flatten(a + b) == flatten(a) + flatten(b),
    decreases b.len(),
{
    if b.len() == 0 {
        assert(a + b =~= a);
        assert(flatten(a) + flatten(b) =~= flatten(a));
    } else {
        lemma_flatten_append(a, b.drop_last());
        assert((a + b).drop_last() =~= a + b.drop_last());
        assert((a + b).last() == b.last());
        assert(flatten(a) + flatten(b) =~= flatten(a) + flatten(b.drop_last()) + b.last());
    }
}

/// Framing in batches loses and invents nothing: when two pushes each hand
/// out frames that, with what stays pending, are what was pending followed
/// by the batch, the frames of both pushes, with what stays pending after the
/// second, are what was pending at first followed by both batches.
pub proof fn lemma_batches_compose(
    pending0: Seq<i16>,
    batch1: Seq<i16>,
    frames1: Seq<Seq<i16>>,
    pending1: Seq<i16>,
    batch2: Seq<i16>,
    frames2: Seq<Seq<i16>>,
    pending2: Seq<i16>,
)
    requires
        flatten(frames1) + pending1 == pending0 + batch1,
        flatten(frames2) + pending2 == pending1 + batch2,
    ensures
        flatten(frames1 + frames2) + pending2 == pending0 + (batch1 + batch2),
{
    lemma_flatten_append(frames1, frames2);
    assert(flatten(frames1) + flatten(frames2) + pending2 =~= flatten(frames1) + (pending1 + batch2));
    assert(flatten(frames1) + (pending1 + batch2) =~= (flatten(frames1) + pending1) + batch2);
    assert(pending0 + batch1 + batch2 =~= pending0 + (batch1 + batch2));
}

} // verus!
