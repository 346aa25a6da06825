use tryx::media::{
    channel_capacity, check_video_frame, effective_stride, pcm16_from_bytes, pcm16_from_i16, pcm16_from_i24,
    pcm16_from_i32, pcm16_from_i8, pcm16_from_u16, pcm16_from_u24, pcm16_from_u32, pcm16_from_u8, pcm16_to_bytes,
    resample_to_16k, video_stride, FrameAssembler, VideoFeed, AUDIO_FRAME_BYTES, AUDIO_FRAME_SAMPLES,
};

#[test]
fn channel_adapters_are_bounded() {
    let (tx, _rx) = whatsapp_rust::async_channel::bounded::<Vec<i16>>(channel_capacity(2));
    assert_eq!(tx.capacity(), Some(2));
}

#[test]
fn zero_capacity_becomes_one() {
    assert_eq!(channel_capacity(0), 1);
    assert_eq!(channel_capacity(6), 6);
    assert_eq!(effective_stride(0), 1);
    assert_eq!(effective_stride(6000), 6000);
}

#[test]
fn audio_frame_must_be_1920_bytes() {
    let err = pcm16_from_bytes(&[0u8; 10]).unwrap_err();
    assert_eq!(err, "audio frame must be exactly 1920 bytes (960 PCM16 samples), got 10");
    let err = pcm16_from_bytes(&[]).unwrap_err();
    assert_eq!(err, "audio frame must be exactly 1920 bytes (960 PCM16 samples), got 0");
    let mut bytes = vec![0u8; AUDIO_FRAME_BYTES];
    bytes[0] = 0x34;
    bytes[1] = 0x12;
    bytes[2] = 0xff;
    bytes[3] = 0xff;
    bytes[4] = 0x00;
    bytes[5] = 0x80;
    let samples = pcm16_from_bytes(&bytes).unwrap();
    assert_eq!(samples.len(), AUDIO_FRAME_SAMPLES);
    assert_eq!(samples[0], 0x1234);
    assert_eq!(samples[1], -1);
    assert_eq!(samples[2], i16::MIN);
    assert_eq!(samples[3], 0);
}

#[test]
fn pcm16_bytes_round_trip() {
    let samples: Vec<i16> = (0..AUDIO_FRAME_SAMPLES).map(|i| (i as i16).wrapping_mul(37).wrapping_sub(9000)).collect();
    let bytes = pcm16_to_bytes(&samples);
    assert_eq!(bytes.len(), AUDIO_FRAME_BYTES);
    let expected: Vec<u8> = samples.iter().flat_map(|s| s.to_le_bytes()).collect();
    assert_eq!(bytes, expected);
    assert_eq!(pcm16_from_bytes(&bytes).unwrap(), samples);
    assert_eq!(pcm16_to_bytes(&[-2, 256]), vec![0xfe, 0xff, 0x00, 0x01]);
}

#[test]
fn fps_sets_the_rtp_stride() {
    assert_eq!(video_stride(15), Ok(6000));
    assert_eq!(video_stride(1), Ok(90000));
    assert_eq!(video_stride(60), Ok(1500));
    assert_eq!(video_stride(7), Ok(12857));
    assert_eq!(video_stride(0), Err("fps must be between 1 and 60".to_string()));
    assert_eq!(video_stride(61), Err("fps must be between 1 and 60".to_string()));
}

#[test]
fn empty_video_frame_is_refused() {
    assert_eq!(check_video_frame(vec![]), Err("video frame cannot be empty".to_string()));
    assert_eq!(check_video_frame(vec![1, 2]), Ok(vec![1, 2]));
}

#[test]
fn sample_formats_convert_to_pcm16() {
    assert_eq!(pcm16_from_u8(&[0, 128, 255]), vec![-32768, 0, 32512]);
    assert_eq!(pcm16_from_u16(&[0, 32768, 65535]), vec![-32768, 0, 32767]);
    assert_eq!(pcm16_from_u24(&[0, 0x80_0000, 0xff_ffff, 0x12_3456]), vec![0, -32768, -1, 0x1234]);
    assert_eq!(pcm16_from_u32(&[0, 0x8000_0000, u32::MAX]), vec![-32768, 0, 32767]);
    assert_eq!(pcm16_from_i8(&[-128, 0, 127]), vec![-32768, 0, 32512]);
    assert_eq!(pcm16_from_i16(&[-5, 7]), vec![-5, 7]);
    assert_eq!(pcm16_from_i24(&[-0x80_0000, -1, 0x7f_ffff, 0x1234]), vec![-32768, -1, 32767, 0x12]);
    assert_eq!(pcm16_from_i32(&[i32::MIN, -1, i32::MAX, 65536]), vec![-32768, -1, 32767, 1]);
}

#[test]
fn resampling_picks_the_nearest_earlier_sample() {
    let same: Vec<i16> = vec![1, 2, 3];
    assert_eq!(resample_to_16k(same.clone(), 16000), same);
    let up = resample_to_16k(vec![10, 20], 8000);
    assert_eq!(up, vec![10, 10, 20, 20]);
    let down = resample_to_16k(vec![1, 2, 3, 4, 5, 6], 48000);
    assert_eq!(down, vec![1, 4]);
    assert_eq!(resample_to_16k(vec![], 44100), Vec::<i16>::new());
    let odd = resample_to_16k(vec![7; 441], 44100);
    assert_eq!(odd.len(), 160);
}

#[test]
fn framing_keeps_every_sample_in_order() {
    let mut framer = FrameAssembler::new();
    let first: Vec<i16> = (0..700).map(|i| i as i16).collect();
    let frames = framer.push(&first);
    assert!(frames.is_empty());
    let second: Vec<i16> = (700..2000).map(|i| i as i16).collect();
    let frames = framer.push(&second);
    assert_eq!(frames.len(), 2);
    assert!(frames.iter().all(|f| f.len() == AUDIO_FRAME_SAMPLES));
    let flat: Vec<i16> = frames.concat();
    assert_eq!(flat, (0..1920).map(|i| i as i16).collect::<Vec<_>>());
    let last = framer.finish().unwrap();
    assert_eq!(last.len(), AUDIO_FRAME_SAMPLES);
    assert_eq!(&last[..80], &(1920..2000).map(|i| i as i16).collect::<Vec<_>>()[..]);
    assert!(last[80..].iter().all(|s| *s == 0));
    assert_eq!(framer.finish(), None);
}

#[test]
fn video_feed_cuts_at_access_unit_delimiters() {
    let aud = [0u8, 0, 0, 1, 0x09, 0xf0];
    let slice = [0u8, 0, 0, 1, 0x65, 0x88, 0x84];
    let mut stream = Vec::new();
    stream.extend_from_slice(&aud);
    stream.extend_from_slice(&slice);
    stream.extend_from_slice(&aud);
    stream.extend_from_slice(&slice);
    let mut feed = VideoFeed::new();
    let frames = feed.push(&stream);
    assert_eq!(frames.len(), 1);
    assert_eq!(frames[0].len(), aud.len() + slice.len());
    assert_eq!(&frames[0][..], &stream[..13]);
    let last = feed.finish().unwrap();
    assert_eq!(&last[..], &stream[13..]);
    assert_eq!(feed.finish(), None);
}

#[test]
fn video_feed_cuts_at_delimiters_across_chunks() {
    // A four-byte start code before each delimiter, split across chunks.
    let stream: Vec<u8> = vec![
        0, 0, 0, 1, 0x09, 0xf0, 0, 0, 1, 0x41, 0xaa, // first unit
        0, 0, 0, 1, 0x09, 0xf0, 0, 0, 1, 0x41, 0xbb, // second unit
        0, 0, 0, 1, 0x09, 0xf0, // third, still open
    ];
    let mut feed = VideoFeed::new();
    let mut frames = Vec::new();
    for chunk in stream.chunks(3) {
        frames.extend(feed.push(chunk));
    }
    assert_eq!(frames.len(), 2);
    assert_eq!(&frames[0][..], &stream[..11]);
    assert_eq!(&frames[1][..], &stream[11..22]);
    assert_eq!(&feed.finish().unwrap()[..], &stream[22..]);
}
