use vstd::prelude::*;
use crate::buffer::{Buffer, BufferView};
use vstd::string::StringSliceAdditionalSpecFns;

verus! {

/// The encodings that assets can be decoded from.
#[derive(Clone, Copy, Debug, PartialEq, Eq, Structural)]
pub enum Codec {
    Flac,
    Ogg,
    Mp3,
    Wav,
}

/// Why an asset could not be loaded.
#[derive(Clone, Copy, Debug, PartialEq, Eq, Structural)]
pub enum DecodeError {
    /// The Ogg Vorbis stream could not be read.
    Vorbis,
    /// The Ogg file is too large, or a page that ends a packet gives a
    /// granule position of 2^63 or more, past which the decoder's running
    /// sample count could overflow.
    GranuleOutOfRange,
}

impl DecodeError {
    /// A message that describes the error.
    pub fn message(&self) -> (r: &'static str)
        ensures
            *self == DecodeError::Vorbis ==> r@ == "the Vorbis stream could not be read"@,
            *self == DecodeError::GranuleOutOfRange ==> r@
                == "the Ogg file has a granule position out of range"@,
    {
        match self {
            DecodeError::Vorbis => "the Vorbis stream could not be read",
            DecodeError::GranuleOutOfRange => "the Ogg file has a granule position out of range",
        }
    }
}

/// The largest Ogg file (exclusive) that is handed to the Vorbis decoder.
pub const OGG_SIZE_LIMIT: u64 = 0x4_0000_0000_0000;

/// An Ogg page header at `i`: the capture pattern `OggS`, and the 27 header
/// bytes and the segment table all within the file.
pub open spec fn page_header_at(b: Seq<u8>, i: int) -> bool {
    &&& 0 <= i
    &&& i + 27 <= b.len()
    &&& b[i] == 79u8
    &&& b[i + 1] == 103u8
    &&& b[i + 2] == 103u8
    &&& b[i + 3] == 83u8
    &&& i + 27 + b[i + 26] <= b.len()
}

/// The page at `i` ends a packet: a lacing value of its segment table is
/// under 255.
pub open spec fn page_ends_packet(b: Seq<u8>, i: int) -> bool {
    exists|k: int| 0 <= k < b[i + 26] && #[trigger] b[i + 27 + k] < 255u8
}

/// The granule position of the page at `i` (eight bytes, little-endian, from
/// offset 6) is under 2^63: its top byte is under 0x80.
pub open spec fn granule_below_half(b: Seq<u8>, i: int) -> bool {
    b[i + 13] < 128u8
}

/// The Ogg file is under the size limit, and every page header in it that
/// ends a packet has a granule position under 2^63. The decoder adds at most
/// 2^12 samples per packet to the granule of the last page that ended one, so
/// on such a file its running count stays under 2^64.
pub open spec fn vorbis_granules_bounded(b: Seq<u8>) -> bool {
    &&& b.len() < OGG_SIZE_LIMIT
    &&& forall|i: int| #[trigger] page_header_at(b, i) && page_ends_packet(b, i)
        ==> granule_below_half(b, i)
}

/// Whether the page header at `i`, if there is one and it ends a packet, has
/// a granule position under 2^63.
fn page_granule_ok(b: &Vec<u8>, i: usize) -> (r: bool)
    ensures
        r == (page_header_at(b@, i as int) && page_ends_packet(b@, i as int) ==> granule_below_half(
            b@,
            i as int,
        )),
{
    if i > b.len() || b.len() - i < 27 {
        return true;
    }
    if b[i] != 79u8 || b[i + 1] != 103u8 || b[i + 2] != 103u8 || b[i + 3] != 83u8 {
        return true;
    }
    let segments = b[i + 26] as usize;
    if b.len() - i - 27 < segments {
        return true;
    }
    if b[i + 13] < 128u8 {
        return true;
    }
    let base: usize = i + 27;
    let end: usize = base + segments;
    let mut k: usize = 0;
    while k < segments
        invariant
            base == i + 27,
            end == base + segments,
            end <= b@.len(),
            segments as int == b@[i + 26] as int,
            k <= segments,
            page_header_at(b@, i as int),
            !granule_below_half(b@, i as int),
            forall|j: int| 0 <= j < k ==> !(#[trigger] b@[i + 27 + j] < 255u8),
        decreases segments - k,
    {
        if b[base + k] < 255u8 {
            assert(page_ends_packet(b@, i as int)) by {
                assert(b@[i + 27 + k as int] < 255u8);
            }
            return false;
        }
        k = k + 1;
    }
    assert(!page_ends_packet(b@, i as int)) by {
        assert forall|j: int| 0 <= j < b@[i + 26] implies !(#[trigger] b@[i + 27 + j] < 255u8) by {
            assert(0 <= j < k);
        }
    }
    true
}

/// Checks that an Ogg file can go to the Vorbis decoder.
pub fn vorbis_granules_ok(b: &Vec<u8>) -> (r: bool)
    ensures
        r == vorbis_granules_bounded(b@),
{
    if b.len() as u64 >= OGG_SIZE_LIMIT {
        return false;
    }
    let mut i: usize = 0;
    while i < b.len()
        invariant
            i <= b@.len(),
            forall|j: int|
                0 <= j < i ==> (#[trigger] page_header_at(b@, j) && page_ends_packet(b@, j)
                    ==> granule_below_half(b@, j)),
        decreases b@.len() - i,
    {
        if !page_granule_ok(b, i) {
            return false;
        }
        i = i + 1;
    }
    assert forall|j: int| #[trigger] page_header_at(b@, j) && page_ends_packet(b@, j) implies granule_below_half(b@, j) by {
        assert(0 <= j < b@.len());
    }
    true
}

/// lewton's `VorbisError`, carried through opaque: only whether a Vorbis
/// stream failed is used, never what is inside the error.
#[verifier::external_type_specification]
#[verifier::external_body]
pub struct ExVorbisError(lewton::VorbisError);

/// What claxon reads from a FLAC file: each item of its sample iterator
/// (`None` for an item that failed to decode), the stream's sample rate and
/// channel count; `None` when the stream cannot be opened.
pub uninterp spec fn flac_read(bytes: Seq<u8>) -> Option<(Seq<Option<i32>>, u32, u32)>;

/// What lewton reads from an Ogg Vorbis file: the interleaved samples of each
/// packet, the sample rate and the channel count; `None` when opening the
/// stream or reading a packet fails.
pub uninterp spec fn vorbis_read(bytes: Seq<u8>) -> Option<(Seq<Seq<i16>>, u32, u8)>;

/// What minimp3 reads from an MP3 file: each frame (its samples, sample rate
/// and channel count) up to the first error, and whether that error was the
/// end of the stream.
pub uninterp spec fn mp3_read(bytes: Seq<u8>) -> (Seq<(Seq<i16>, i32, usize)>, bool);

/// What hound reads from a WAV file: each item of its 16-bit sample iterator
/// (`None` for an item that failed to read), the header's sample rate and
/// channel count; `None` when the header cannot be read.
pub uninterp spec fn wav_read(bytes: Seq<u8>) -> Option<(Seq<Option<i16>>, u32, u16)>;

/// The samples of each packet.
pub open spec fn packets_view(packets: Seq<Vec<i16>>) -> Seq<Seq<i16>> {
    Seq::new(packets.len(), |k: int| packets[k]@)
}

/// Each frame, with its samples viewed.
pub open spec fn frames_view(frames: Seq<(Vec<i16>, i32, usize)>) -> Seq<(Seq<i16>, i32, usize)> {
    Seq::new(frames.len(), |k: int| (frames[k].0@, frames[k].1, frames[k].2))
}

/// The samples of each frame.
pub open spec fn frame_samples(frames: Seq<(Seq<i16>, i32, usize)>) -> Seq<Seq<i16>> {
    Seq::new(frames.len(), |k: int| frames[k].0)
}

/// Relies on claxon's `FlacReader::new`, `samples` and `streaminfo`: every
/// item the sample iterator yields, one for one, and the stream info; all
/// depend on the bytes alone.
#[verifier::external_body]
fn read_flac(bytes: &Vec<u8>) -> (r: Option<(Vec<Option<i32>>, u32, u32)>)
    ensures
        match r {
            Some((samples, rate, channels)) => flac_read(bytes@) == Some((samples@, rate, channels)),
            None => flac_read(bytes@) is None,
        },
{
    match claxon::FlacReader::new(std::io::Cursor::new(bytes.clone())) {
        Ok(mut reader) => {
            let samples: Vec<Option<i32>> = reader.samples().map(|s| s.ok()).collect();
            let info = reader.streaminfo();
            Some((samples, info.sample_rate, info.channels))
        },
        Err(_) => None,
    }
}

/// Relies on lewton's `OggStreamReader::new` and `read_dec_packet_itl`: every
/// packet, one for one, until the stream ends, with the identification
/// header's rate and channel count, or the first error; all depend on the
/// bytes alone. The reader adds each packet's sample count to the granule
/// position of the last page that ended a packet without checking for
/// overflow: only files on which that sum stays in range are handed to it.
#[verifier::external_body]
fn read_vorbis(bytes: &Vec<u8>) -> (r: Result<(Vec<Vec<i16>>, u32, u8), lewton::VorbisError>)
    requires
        vorbis_granules_bounded(bytes@),
    ensures
        match r {
            Ok((packets, rate, channels)) => vorbis_read(bytes@) == Some(
                (packets_view(packets@), rate, channels),
            ),
            Err(_) => vorbis_read(bytes@) is None,
        },
{
    let cursor = std::io::Cursor::new(bytes.clone());
    let mut stream = lewton::inside_ogg::OggStreamReader::new(cursor)?;
    let mut packets: Vec<Vec<i16>> = Vec::new();
    while let Some(packet) = stream.read_dec_packet_itl()? {
        packets.push(packet);
    }
    let header = &stream.ident_hdr;
    Ok((packets, header.audio_sample_rate, header.audio_channels))
}

/// Relies on minimp3's `Decoder::next_frame`: every frame, one for one, up to
/// the first error, and whether that error is `Error::Eof`; all depend on the
/// bytes alone.
#[verifier::external_body]
fn read_mp3(bytes: &Vec<u8>) -> (r: (Vec<(Vec<i16>, i32, usize)>, bool))
    ensures
        (frames_view(r.0@), r.1) == mp3_read(bytes@),
{
    let mut decoder = minimp3::Decoder::new(std::io::Cursor::new(bytes.clone()));
    let mut frames: Vec<(Vec<i16>, i32, usize)> = Vec::new();
    loop {
        match decoder.next_frame() {
            Ok(frame) => frames.push((frame.data, frame.sample_rate, frame.channels)),
            Err(minimp3::Error::Eof) => return (frames, true),
            Err(_) => return (frames, false),
        }
    }
}

/// Relies on hound's `WavReader::new`, `samples::<i16>` and `spec`: every item
/// the sample iterator yields, one for one, and the header's rate and channel
/// count; all depend on the bytes alone.
#[verifier::external_body]
fn read_wav(bytes: &Vec<u8>) -> (r: Option<(Vec<Option<i16>>, u32, u16)>)
    ensures
        match r {
            Some((samples, rate, channels)) => wav_read(bytes@) == Some((samples@, rate, channels)),
            None => wav_read(bytes@) is None,
        },
{
    match hound::WavReader::new(std::io::Cursor::new(bytes.clone())) {
        Ok(mut reader) => {
            let samples: Vec<Option<i16>> = reader.samples::<i16>().map(|s| s.ok()).collect();
            let spec = reader.spec();
            Some((samples, spec.sample_rate, spec.channels))
        },
        Err(_) => None,
    }
}

/// The samples that were read, in order, leaving out those that failed.
pub open spec fn kept<T>(items: Seq<Option<T>>) -> Seq<T>
    decreases items.len(),
{
    if items.len() == 0 {
        Seq::empty()
    } else {
        let rest = kept(items.drop_last());
        match items.last() {
            Some(x) => rest.push(x),
            None => rest,
        }
    }
}

/// Keeps the samples that were read, in order, and drops those that failed.
pub fn keep_read<T: Copy>(items: &Vec<Option<T>>) -> (r: Vec<T>)
    ensures
        r@ == kept(items@),
{
    let mut out: Vec<T> = Vec::new();
    let mut i: usize = 0;
    while i < items.len()
        invariant
            i <= items@.len(),
            out@ == kept(items@.subrange(0, i as int)),
        decreases items@.len() - i,
    {
        proof {
            let next = items@.subrange(0, i + 1);
            assert(next.drop_last() =~= items@.subrange(0, i as int));
            assert(next.last() == items@[i as int]);
        }
        match items[i] {
            Some(x) => out.push(x),
            None => {},
        }
        i = i + 1;
    }
    assert(items@.subrange(0, items@.len() as int) =~= items@);
    out
}

/// Appends every sample of `src` to `out`.
fn push_all(out: &mut Vec<i16>, src: &Vec<i16>)
    ensures
        final(out)@ == old(out)@ + src@,
{
    let mut i: usize = 0;
    while i < src.len()
        invariant
            i <= src@.len(),
            out@ == old(out)@ + src@.subrange(0, i as int),
        decreases src@.len() - i,
    {
        out.push(src[i]);
        i = i + 1;
        assert(out@ =~= old(out)@ + src@.subrange(0, i as int));
    }
    assert(src@.subrange(0, src@.len() as int) =~= src@);
}

/// Joins the samples of every packet, in order.
pub fn join_packets(packets: &Vec<Vec<i16>>) -> (r: Vec<i16>)
    ensures
        r@ == packets_view(packets@).flatten(),
{
    let mut out: Vec<i16> = Vec::new();
    let mut i: usize = 0;
    while i < packets.len()
        invariant
            i <= packets@.len(),
            out@ == packets_view(packets@.subrange(0, i as int)).flatten(),
        decreases packets@.len() - i,
    {
        proof {
            let done = packets_view(packets@.subrange(0, i as int));
            assert(packets_view(packets@.subrange(0, i + 1)) =~= done.push(packets@[i as int]@));
            done.lemma_flatten_push(packets@[i as int]@);
        }
        push_all(&mut out, &packets[i]);
        i = i + 1;
    }
    assert(packets@.subrange(0, packets@.len() as int) =~= packets@);
    out
}

/// The buffer an MP3 stream makes: the samples of all its frames joined, with
/// the rate and channel count of the last frame (0 and 0 when there is no
/// frame); nothing when reading stopped on an error other than the end of the
/// stream.
pub open spec fn spec_assemble_mp3(frames: Seq<(Seq<i16>, i32, usize)>, ended: bool) -> Option<
    (Seq<i16>, i32, u16),
> {
    if !ended {
        None
    } else if frames.len() == 0 {
        Some((Seq::empty(), 0, 0))
    } else {
        Some((frame_samples(frames).flatten(), frames.last().1, frames.last().2 as u16))
    }
}

/// Assembles the frames read from an MP3 stream into a buffer's samples, rate
/// and channel count.
pub fn assemble_mp3(frames: &Vec<(Vec<i16>, i32, usize)>, ended: bool) -> (r: Option<
    (Vec<i16>, i32, u16),
>)
    ensures
        match r {
            Some((samples, rate, channels)) => spec_assemble_mp3(frames_view(frames@), ended)
                == Some((samples@, rate, channels)),
            None => spec_assemble_mp3(frames_view(frames@), ended) is None,
        },
{
    if !ended {
        return None;
    }
    let mut out: Vec<i16> = Vec::new();
    let mut i: usize = 0;
    while i < frames.len()
        invariant
            i <= frames@.len(),
            out@ == frame_samples(frames_view(frames@.subrange(0, i as int))).flatten(),
        decreases frames@.len() - i,
    {
        proof {
            let done = frame_samples(frames_view(frames@.subrange(0, i as int)));
            assert(frame_samples(frames_view(frames@.subrange(0, i + 1))) =~= done.push(
                frames@[i as int].0@,
            ));
            done.lemma_flatten_push(frames@[i as int].0@);
        }
        push_all(&mut out, &frames[i].0);
        i = i + 1;
    }
    assert(frames@.subrange(0, frames@.len() as int) =~= frames@);
    if frames.len() == 0 {
        assert(out@ =~= Seq::<i16>::empty());
        return Some((out, 0, 0));
    }
    let last = frames.len() - 1;
    Some((out, frames[last].1, frames[last].2 as u16))
}

/// The extensions, as bytes, that name each codec.
pub open spec fn flac_word() -> Seq<u8> {
    seq![102u8, 108u8, 97u8, 99u8]
}

pub open spec fn ogg_word() -> Seq<u8> {
    seq![111u8, 103u8, 103u8]
}

pub open spec fn mp3_word() -> Seq<u8> {
    seq![109u8, 112u8, 51u8]
}

pub open spec fn wav_word() -> Seq<u8> {
    seq![119u8, 97u8, 118u8]
}

/// The codec that a file extension (its UTF-8 bytes) names.
pub open spec fn spec_codec_for(extension: Seq<u8>) -> Option<Codec> {
    if extension == flac_word() {
        Some(Codec::Flac)
    } else if extension == ogg_word() {
        Some(Codec::Ogg)
    } else if extension == mp3_word() {
        Some(Codec::Mp3)
    } else if extension == wav_word() {
        Some(Codec::Wav)
    } else {
        None
    }
}

fn same_bytes(a: &[u8], b: &[u8]) -> (r: bool)
    ensures
        r == (a@ == b@),
{
    if a.len() != b.len() {
        return false;
    }
    let mut i: usize = 0;
    while i < a.len()
        invariant
            a@.len() == b@.len(),
            i <= a@.len(),
            forall|j: int| 0 <= j < i ==> a@[j] == b@[j],
        decreases a@.len() - i,
    {
        if a[i] != b[i] {
            return false;
        }
        i = i + 1;
    }
    assert(a@ =~= b@);
    true
}

/// Finds the codec that a file extension names: `flac`, `ogg`, `mp3` or
/// `wav`, in lower case; any other extension names none.
pub fn codec_for_extension(extension: &str) -> (r: Option<Codec>)
    ensures
        r == spec_codec_for(extension.spec_bytes()),
{
    let ext = extension.as_bytes();
    let flac: [u8; 4] = [102u8, 108u8, 97u8, 99u8];
    let ogg: [u8; 3] = [111u8, 103u8, 103u8];
    let mp3: [u8; 3] = [109u8, 112u8, 51u8];
    let wav: [u8; 3] = [119u8, 97u8, 118u8];
    assert(flac@ =~= flac_word());
    assert(ogg@ =~= ogg_word());
    assert(mp3@ =~= mp3_word());
    assert(wav@ =~= wav_word());
    if same_bytes(ext, flac.as_slice()) {
        Some(Codec::Flac)
    } else if same_bytes(ext, ogg.as_slice()) {
        Some(Codec::Ogg)
    } else if same_bytes(ext, mp3.as_slice()) {
        Some(Codec::Mp3)
    } else if same_bytes(ext, wav.as_slice()) {
        Some(Codec::Wav)
    } else {
        None
    }
}

/// The extensions that assets are loaded from.
pub fn extensions() -> (r: Vec<&'static str>)
    ensures
        r@.len() == 4,
        r@[0]@ == "flac"@,
        r@[1]@ == "ogg"@,
        r@[2]@ == "mp3"@,
        r@[3]@ == "wav"@,
{
    let mut r: Vec<&'static str> = Vec::new();
    r.push("flac");
    r.push("ogg");
    r.push("mp3");
    r.push("wav");
    r
}

/// FLAC samples cut to 16 bits, as the device takes them.
pub open spec fn cut_samples(samples: Seq<i32>) -> Seq<i16> {
    samples.map_values(|s: i32| s as i16)
}

/// Cuts each sample to its low 16 bits.
fn cut_to_i16(samples: &Vec<i32>) -> (r: Vec<i16>)
    ensures
        r@ == cut_samples(samples@),
{
    let mut out: Vec<i16> = Vec::new();
    let mut i: usize = 0;
    while i < samples.len()
        invariant
            i <= samples@.len(),
            out@ == cut_samples(samples@.subrange(0, i as int)),
        decreases samples@.len() - i,
    {
        out.push(samples[i] as i16);
        i = i + 1;
        assert(out@ =~= cut_samples(samples@.subrange(0, i as int)));
    }
    assert(samples@.subrange(0, samples@.len() as int) =~= samples@);
    out
}

/// What decoding `bytes` with `codec` yields: for FLAC and WAV the samples
/// that read, in order (FLAC's cut to 16 bits); for Vorbis the samples of
/// every packet joined; for MP3 the frames assembled; each with the stream's
/// rate and channel count. `None` when the decoder fails.
pub open spec fn spec_decoded(codec: Codec, bytes: Seq<u8>) -> Option<(Seq<i16>, i32, u16)> {
    match codec {
        Codec::Flac => match flac_read(bytes) {
            Some((samples, rate, channels)) => Some(
                (cut_samples(kept(samples)), rate as i32, channels as u16),
            ),
            None => None,
        },
        Codec::Ogg => match vorbis_read(bytes) {
            Some((packets, rate, channels)) => Some((packets.flatten(), rate as i32, channels as u16)),
            None => None,
        },
        Codec::Mp3 => spec_assemble_mp3(mp3_read(bytes).0, mp3_read(bytes).1),
        Codec::Wav => match wav_read(bytes) {
            Some((samples, rate, channels)) => Some((kept(samples), rate as i32, channels)),
            None => None,
        },
    }
}

/// The buffer that decoded samples, rate and channel count make.
pub open spec fn buffer_of(pcm: (Seq<i16>, i32, u16)) -> BufferView {
    BufferView { samples: pcm.0, sample_rate: pcm.1, channels: pcm.2 }
}

/// The outcome of loading a file whose extension names `codec`: a Vorbis
/// stream that fails is an error; any other decoder that fails yields no
/// buffer.
pub open spec fn spec_load_with(codec: Codec, bytes: Seq<u8>) -> Result<Option<BufferView>, DecodeError> {
    if codec == Codec::Ogg && !vorbis_granules_bounded(bytes) {
        Err(DecodeError::GranuleOutOfRange)
    } else {
        match spec_decoded(codec, bytes) {
            Some(pcm) => Ok(Some(buffer_of(pcm))),
            None => if codec == Codec::Ogg {
                Err(DecodeError::Vorbis)
            } else {
                Ok(None)
            },
        }
    }
}

/// Views a loaded buffer, if any.
pub open spec fn loaded_view(r: Result<Option<Buffer>, DecodeError>) -> Result<Option<BufferView>, DecodeError> {
    match r {
        Ok(Some(b)) => Ok(Some(b@)),
        Ok(None) => Ok(None),
        Err(e) => Err(e),
    }
}

/// Decodes `bytes` with the codec given.
pub fn load_with(codec: Codec, bytes: &Vec<u8>) -> (r: Result<Option<Buffer>, DecodeError>)
    ensures
        loaded_view(r) == spec_load_with(codec, bytes@),
{
    let decoded = match codec {
        Codec::Flac => match read_flac(bytes) {
            Some((samples, rate, channels)) => Some(
                (cut_to_i16(&keep_read(&samples)), rate as i32, channels as u16),
            ),
            None => None,
        },
        Codec::Ogg => {
            if !vorbis_granules_ok(bytes) {
                return Err(DecodeError::GranuleOutOfRange);
            }
            match read_vorbis(bytes) {
                Ok((packets, rate, channels)) => Some(
                    (join_packets(&packets), rate as i32, channels as u16),
                ),
                Err(_) => {
                    return Err(DecodeError::Vorbis);
                },
            }
        },
        Codec::Mp3 => {
            let (frames, ended) = read_mp3(bytes);
            assemble_mp3(&frames, ended)
        },
        Codec::Wav => match read_wav(bytes) {
            Some((samples, rate, channels)) => Some((keep_read(&samples), rate as i32, channels)),
            None => None,
        },
    };
    match decoded {
        Some((samples, rate, channels)) => Ok(Some(Buffer::new(samples, rate, channels))),
        None => Ok(None),
    }
}

/// Loads a file from its bytes and its extension. An extension that names no
/// codec yields no buffer, and is no error.
pub fn load(extension: &str, bytes: &Vec<u8>) -> (r: Result<Option<Buffer>, DecodeError>)
    ensures
        loaded_view(r) == (match spec_codec_for(extension.spec_bytes()) {
            Some(codec) => spec_load_with(codec, bytes@),
            None => Ok(None),
        }),
{
    match codec_for_extension(extension) {
        Some(codec) => load_with(codec, bytes),
        None => Ok(None),
    }
}

} // verus!
