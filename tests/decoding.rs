use bevy_openal::{
    assemble_mp3, codec_for_extension, extensions, join_packets, keep_read, load, load_with,
    vorbis_granules_ok, Codec, DecodeError,
};

fn wav_bytes(samples: &[i16], channels: u16, sample_rate: u32) -> Vec<u8> {
    let spec = hound::WavSpec {
        channels,
        sample_rate,
        bits_per_sample: 16,
        sample_format: hound::SampleFormat::Int,
    };
    let mut cursor = std::io::Cursor::new(Vec::new());
    {
        let mut writer = hound::WavWriter::new(&mut cursor, spec).unwrap();
        for s in samples {
            writer.write_sample(*s).unwrap();
        }
        writer.finalize().unwrap();
    }
    cursor.into_inner()
}

#[test]
fn extensions_name_codecs() {
    assert_eq!(codec_for_extension("flac"), Some(Codec::Flac));
    assert_eq!(codec_for_extension("ogg"), Some(Codec::Ogg));
    assert_eq!(codec_for_extension("mp3"), Some(Codec::Mp3));
    assert_eq!(codec_for_extension("wav"), Some(Codec::Wav));
    assert_eq!(codec_for_extension("WAV"), None);
    assert_eq!(codec_for_extension("mp"), None);
    assert_eq!(codec_for_extension(""), None);
    assert_eq!(extensions(), vec!["flac", "ogg", "mp3", "wav"]);
}

#[test]
fn wav_file_decodes_to_its_samples() {
    let bytes = wav_bytes(&[0, 1000, -1000, i16::MAX, i16::MIN, 7], 2, 22050);
    let buffer = load("wav", &bytes).unwrap().unwrap();
    assert_eq!(buffer.samples(), &vec![0, 1000, -1000, i16::MAX, i16::MIN, 7]);
    assert_eq!(buffer.sample_rate(), 22050);
    assert_eq!(buffer.channels(), 2);
}

#[test]
fn mono_wav_file_keeps_one_channel() {
    let bytes = wav_bytes(&[5, 6, 7], 1, 8000);
    let buffer = load_with(Codec::Wav, &bytes).unwrap().unwrap();
    assert_eq!(buffer.samples(), &vec![5, 6, 7]);
    assert_eq!(buffer.sample_rate(), 8000);
    assert_eq!(buffer.channels(), 1);
}

#[test]
fn unknown_extension_yields_no_buffer() {
    let bytes = wav_bytes(&[1, 2], 1, 8000);
    assert!(load("aiff", &bytes).unwrap().is_none());
}

#[test]
fn broken_files_yield_no_buffer() {
    let junk: Vec<u8> = b"this is not audio at all".to_vec();
    assert!(load("wav", &junk).unwrap().is_none());
    assert!(load("flac", &junk).unwrap().is_none());
}

#[test]
fn broken_vorbis_stream_is_an_error() {
    let junk: Vec<u8> = b"OggS but not really a stream".to_vec();
    assert_eq!(load("ogg", &junk).err(), Some(DecodeError::Vorbis));
}

#[test]
fn empty_mp3_yields_an_empty_buffer() {
    let buffer = load("mp3", &Vec::new()).unwrap().unwrap();
    assert!(buffer.samples().is_empty());
    assert_eq!(buffer.sample_rate(), 0);
    assert_eq!(buffer.channels(), 0);
}

#[test]
fn mp3_without_frames_yields_an_empty_buffer() {
    let junk: Vec<u8> = b"no frame sync anywhere in these bytes".to_vec();
    let buffer = load("mp3", &junk).unwrap().unwrap();
    assert!(buffer.samples().is_empty());
    assert_eq!(buffer.sample_rate(), 0);
    assert_eq!(buffer.channels(), 0);
}

#[test]
fn failed_samples_are_dropped_in_order() {
    assert_eq!(keep_read(&vec![Some(1i16), None, Some(-3), None, Some(4)]), vec![1, -3, 4]);
    assert_eq!(keep_read::<i32>(&vec![None, None]), Vec::<i32>::new());
    assert_eq!(keep_read::<i16>(&vec![]), Vec::<i16>::new());
}

#[test]
fn packets_are_joined_in_order() {
    assert_eq!(join_packets(&vec![vec![1, 2], vec![], vec![3]]), vec![1, 2, 3]);
    assert_eq!(join_packets(&vec![]), Vec::<i16>::new());
}

#[test]
fn mp3_frames_join_with_the_last_frame_format() {
    let frames = vec![(vec![1i16, 2], 44100, 2usize), (vec![3i16], 22050, 1usize)];
    assert_eq!(assemble_mp3(&frames, true), Some((vec![1, 2, 3], 22050, 1)));
    assert_eq!(assemble_mp3(&frames, false), None);
    assert_eq!(assemble_mp3(&vec![], true), Some((vec![], 0, 0)));
    assert_eq!(assemble_mp3(&vec![], false), None);
}

/// An Ogg page header with the given granule position and lacing values,
/// followed by as many body bytes as the lacing values give.
fn ogg_page(granule: u64, lacing: &[u8]) -> Vec<u8> {
    let mut page: Vec<u8> = b"OggS".to_vec();
    page.push(0);
    page.push(0x02);
    page.extend_from_slice(&granule.to_le_bytes());
    page.extend_from_slice(&[1, 0, 0, 0, 0, 0, 0, 0, 0, 0, 0, 0]);
    page.push(lacing.len() as u8);
    page.extend_from_slice(lacing);
    let body: usize = lacing.iter().map(|l| *l as usize).sum();
    page.extend(std::iter::repeat(0u8).take(body));
    page
}

#[test]
fn granule_past_half_range_is_refused() {
    let bytes = ogg_page(u64::MAX - 5, &[30]);
    assert!(!vorbis_granules_ok(&bytes));
    assert_eq!(load("ogg", &bytes).err(), Some(DecodeError::GranuleOutOfRange));
    let mut later = ogg_page(10, &[1]);
    later.extend(ogg_page(1u64 << 63, &[255, 4]));
    assert!(!vorbis_granules_ok(&later));
}

#[test]
fn granule_on_pages_that_end_no_packet_is_allowed() {
    let bytes = ogg_page(u64::MAX, &[255, 255]);
    assert!(vorbis_granules_ok(&bytes));
    assert_eq!(load("ogg", &bytes).err(), Some(DecodeError::Vorbis));
    assert!(vorbis_granules_ok(&ogg_page((1u64 << 63) - 1, &[17])));
    assert!(vorbis_granules_ok(&Vec::new()));
}

#[test]
fn decode_errors_describe_themselves() {
    assert_eq!(DecodeError::Vorbis.message(), "the Vorbis stream could not be read");
    assert_eq!(
        DecodeError::GranuleOutOfRange.message(),
        "the Ogg file has a granule position out of range"
    );
}
