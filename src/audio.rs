//! The audio extractor: the arguments handed to the decoding tool, the
//! verdict on its exit status, and the checks on the WAV stream it writes.
use vstd::prelude::*;
use vstd::string::StringExecFns;

verus! {

/// Sample rate that the recogniser expects, in Hz.
pub const TARGET_SAMPLE_RATE: u32 = 16000;

/// Bits per sample that the recogniser expects.
pub const TARGET_BITS_PER_SAMPLE: u16 = 16;

/// How the samples of a WAV stream are stored.
#[derive(Clone, Copy, Debug, PartialEq, Eq, Structural)]
pub enum SampleKind {
    Int,
    Float,
}

/// The header fields of a WAV stream that the extractor checks.
#[derive(Clone, Copy, Debug, PartialEq, Eq, Structural)]
pub struct WavFormat {
    pub channels: u16,
    pub sample_rate: u32,
    pub bits_per_sample: u16,
    pub sample_kind: SampleKind,
}

/// What is wrong with a WAV stream, the first of the checks that failed.
#[derive(Clone, Copy, Debug, PartialEq, Eq, Structural)]
pub enum FormatIssue {
    /// The bytes are not a WAV stream that can be read.
    Unreadable,
    /// The stream does not have exactly one channel.
    Channels(u16),
    /// The samples are not stored as integers.
    NotInteger,
    /// The sample rate is not 16 kHz.
    SampleRate(u32),
    /// The samples are not 16 bits wide.
    BitsPerSample(u16),
}

/// A failure of the audio extractor.
#[derive(Clone, Debug, PartialEq, Eq)]
pub enum MediaError {
    /// The decoding tool exited unsuccessfully; holds what it wrote to stderr.
    ToolFailed(String),
    /// The stream that the tool wrote is not mono 16 kHz 16-bit integer PCM.
    UnexpectedFormat(FormatIssue),
}

/// The header that hound reads from `bytes`: channels, sample rate, bits per
/// sample and whether the samples are integers; `None` where it cannot read one.
pub uninterp spec fn wav_header_of(bytes: Seq<u8>) -> Option<(u16, u32, u16, bool)>;

/// The samples, as 16-bit integers, that hound decodes from `bytes`: one entry
/// per sample, `None` for one that it could not decode.
pub uninterp spec fn wav_samples_of(bytes: Seq<u8>) -> Seq<Option<i16>>;

pub open spec fn header_tuple(f: WavFormat) -> (u16, u32, u16, bool) {
    (f.channels, f.sample_rate, f.bits_per_sample, f.sample_kind == SampleKind::Int)
}

/// Relies on `hound::WavReader::new` and `WavReader::spec`: reads the header
/// of a WAV stream held in memory.
#[verifier::external_body]
fn read_wav_format(bytes: &[u8]) -> (r: Option<WavFormat>)
    ensures
        match r {
            Some(f) => wav_header_of(bytes@) == Some(header_tuple(f)),
            None => wav_header_of(bytes@) is None,
        },
{
    match hound::WavReader::new(bytes) {
        Ok(reader) => {
            let header = reader.spec();
            let sample_kind = match header.sample_format {
                hound::SampleFormat::Int => SampleKind::Int,
                hound::SampleFormat::Float => SampleKind::Float,
            };
            Some(WavFormat { channels: header.channels, sample_rate: header.sample_rate,
                bits_per_sample: header.bits_per_sample, sample_kind })
        },
        Err(_) => None,
    }
}

/// Relies on `hound::WavReader::into_samples::<i16>`: decodes the samples of a
/// WAV stream held in memory, one entry per sample.
#[verifier::external_body]
fn read_wav_samples(bytes: &[u8]) -> (r: Vec<Option<i16>>)
    ensures
        r@ == wav_samples_of(bytes@),
{
    match hound::WavReader::new(bytes) {
        Ok(reader) => reader.into_samples::<i16>().map(Result::ok).collect(),
        Err(_) => Vec::new(),
    }
}

/// The first check that a header fails, in the order channels, sample
/// kind, sample rate, bits per sample; `None` where it passes them all.
pub open spec fn format_issue(f: WavFormat) -> Option<FormatIssue> {
    if f.channels != 1 {
        Some(FormatIssue::Channels(f.channels))
    } else if f.sample_kind != SampleKind::Int {
        Some(FormatIssue::NotInteger)
    } else if f.sample_rate != TARGET_SAMPLE_RATE {
        Some(FormatIssue::SampleRate(f.sample_rate))
    } else if f.bits_per_sample != TARGET_BITS_PER_SAMPLE {
        Some(FormatIssue::BitsPerSample(f.bits_per_sample))
    } else {
        None
    }
}

/// The same checks on the header hound read, with `Unreadable` where it read none.
pub open spec fn header_issue(h: Option<(u16, u32, u16, bool)>) -> Option<FormatIssue> {
    match h {
        None => Some(FormatIssue::Unreadable),
        Some(t) => format_issue(
            WavFormat {
                channels: t.0,
                sample_rate: t.1,
                bits_per_sample: t.2,
                sample_kind: if t.3 {
                    SampleKind::Int
                } else {
                    SampleKind::Float
                },
            },
        ),
    }
}

/// The samples that were decoded, in order, without the ones that were not.
pub open spec fn decoded_samples(s: Seq<Option<i16>>) -> Seq<i16>
    decreases s.len(),
{
    if s.len() == 0 {
        Seq::empty()
    } else {
        match s.last() {
            Some(v) => decoded_samples(s.drop_last()).push(v),
            None => decoded_samples(s.drop_last()),
        }
    }
}

/// Checks a WAV header against what the recogniser expects: one channel,
/// integer samples, 16 kHz, 16 bits per sample.
pub fn check_wav_format(f: &WavFormat) -> (r: Result<(), FormatIssue>)
    ensures
        match format_issue(*f) {
            Some(issue) => r == Err::<(), FormatIssue>(issue),
            None => r is Ok,
        },
        f.channels != 1 || f.sample_kind != SampleKind::Int || f.sample_rate != 16000
            || f.bits_per_sample != 16 ==> r is Err,
{
    if f.channels != 1 {
        Err(FormatIssue::Channels(f.channels))
    } else if f.sample_kind != SampleKind::Int {
        Err(FormatIssue::NotInteger)
    } else if f.sample_rate != TARGET_SAMPLE_RATE {
        Err(FormatIssue::SampleRate(f.sample_rate))
    } else if f.bits_per_sample != TARGET_BITS_PER_SAMPLE {
        Err(FormatIssue::BitsPerSample(f.bits_per_sample))
    } else {
        Ok(())
    }
}

/// Keeps the samples that were decoded, in order.
pub fn keep_decoded(samples: &Vec<Option<i16>>) -> (r: Vec<i16>)
    ensures
        r@ == decoded_samples(samples@),
{
    let mut out: Vec<i16> = Vec::new();
    let mut i: usize = 0;
    while i < samples.len()
        invariant
            i <= samples@.len(),
            out@ == decoded_samples(samples@.subrange(0, i as int)),
        decreases samples@.len() - i,
    {
        proof {
            let next = samples@.subrange(0, i + 1);
            assert(next.drop_last() =~= samples@.subrange(0, i as int));
            assert(next.last() == samples@[i as int]);
        }
        match samples[i] {
            Some(v) => out.push(v),
            None => {},
        }
        i = i + 1;
    }
    proof {
        assert(samples@.subrange(0, samples@.len() as int) =~= samples@);
    }
    out
}

/// Reads the samples of the WAV stream that the decoding tool wrote, after
/// checking its header: the stream must be mono 16 kHz 16-bit integer PCM,
/// whatever the tool's exit status said. Samples that cannot be decoded are
/// left out.
pub fn parse_wav_file(bytes: &[u8]) -> (r: Result<Vec<i16>, MediaError>)
    ensures
        match header_issue(wav_header_of(bytes@)) {
            Some(issue) => r == Err::<Vec<i16>, MediaError>(MediaError::UnexpectedFormat(issue)),
            None => r is Ok && r->Ok_0@ == decoded_samples(wav_samples_of(bytes@)),
        },
        match wav_header_of(bytes@) {
            Some(h) => h.0 != 1 || !h.3 || h.1 != 16000 || h.2 != 16 ==> r is Err,
            None => r is Err,
        },
{
    let format = match read_wav_format(bytes) {
        Some(f) => f,
        None => {
            return Err(MediaError::UnexpectedFormat(FormatIssue::Unreadable));
        },
    };
    proof {
        let h = wav_header_of(bytes@).unwrap();
        let g = WavFormat {
            channels: h.0,
            sample_rate: h.1,
            bits_per_sample: h.2,
            sample_kind: if h.3 {
                SampleKind::Int
            } else {
                SampleKind::Float
            },
        };
        assert(g == format);
    }
    match check_wav_format(&format) {
        Err(issue) => Err(MediaError::UnexpectedFormat(issue)),
        Ok(()) => {
            let all = read_wav_samples(bytes);
            Ok(keep_decoded(&all))
        },
    }
}

/// The arguments that make the decoding tool write `audio` as a mono 16 kHz
/// 16-bit PCM WAV stream of the sound of `video`.
pub open spec fn extract_audio_argv(video: Seq<char>, audio: Seq<char>) -> Seq<Seq<char>> {
    seq![
        "-i"@,
        video,
        "-vn"@,
        "-ar"@,
        "16000"@,
        "-ac"@,
        "1"@,
        "-sample_fmt"@,
        "s16"@,
        "-f"@,
        "wav"@,
        audio,
    ]
}

/// The command-line arguments for the decoding tool, to extract the sound of
/// `video` into `audio`.
pub fn extract_audio_args(video: &str, audio: &str) -> (r: Vec<String>)
    ensures
        r@.map_values(|s: String| s@) == extract_audio_argv(video@, audio@),
{
    let mut v: Vec<String> = Vec::new();
    v.push(String::from_str("-i"));
    v.push(String::from_str(video));
    v.push(String::from_str("-vn"));
    v.push(String::from_str("-ar"));
    v.push(String::from_str("16000"));
    v.push(String::from_str("-ac"));
    v.push(String::from_str("1"));
    v.push(String::from_str("-sample_fmt"));
    v.push(String::from_str("s16"));
    v.push(String::from_str("-f"));
    v.push(String::from_str("wav"));
    v.push(String::from_str(audio));
    proof {
        assert(v@.map_values(|s: String| s@) =~= extract_audio_argv(video@, audio@));
    }
    v
}

/// The verdict on a run of the decoding tool: an unsuccessful exit is a
/// failure that carries the tool's stderr.
pub fn check_tool_exit(success: bool, stderr: String) -> (r: Result<(), MediaError>)
    ensures
        success ==> r is Ok,
        !success ==> r == Err::<(), MediaError>(MediaError::ToolFailed(stderr)),
{
    if success {
        Ok(())
    } else {
        Err(MediaError::ToolFailed(stderr))
    }
}

} // verus!
