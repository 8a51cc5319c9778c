use std::io::Cursor;

use subtitle_generator::audio::{
    check_tool_exit, check_wav_format, extract_audio_args, parse_wav_file, FormatIssue, MediaError,
    SampleKind, WavFormat,
};

fn wav_bytes(channels: u16, sample_rate: u32, bits: u16, samples: &[i32]) -> Vec<u8> {
    let spec = hound::WavSpec {
        channels,
        sample_rate,
        bits_per_sample: bits,
        sample_format: hound::SampleFormat::Int,
    };
    let mut cursor = Cursor::new(Vec::new());
    {
        let mut writer = hound::WavWriter::new(&mut cursor, spec).unwrap();
        for s in samples {
            if bits == 8 {
                writer.write_sample(*s as i8).unwrap();
            } else {
                writer.write_sample(*s as i16).unwrap();
            }
        }
        writer.finalize().unwrap();
    }
    cursor.into_inner()
}

fn float_wav_bytes() -> Vec<u8> {
    let spec = hound::WavSpec {
        channels: 1,
        sample_rate: 16000,
        bits_per_sample: 32,
        sample_format: hound::SampleFormat::Float,
    };
    let mut cursor = Cursor::new(Vec::new());
    {
        let mut writer = hound::WavWriter::new(&mut cursor, spec).unwrap();
        writer.write_sample(0.25f32).unwrap();
        writer.finalize().unwrap();
    }
    cursor.into_inner()
}

#[test]
fn accepts_mono_16k_16bit() {
    let bytes = wav_bytes(1, 16000, 16, &[0, 1, -1, 32767, -32768]);
    assert_eq!(parse_wav_file(&bytes), Ok(vec![0, 1, -1, 32767, -32768]));
}

#[test]
fn rejects_two_channels() {
    let bytes = wav_bytes(2, 16000, 16, &[0, 0]);
    assert_eq!(parse_wav_file(&bytes), Err(MediaError::UnexpectedFormat(FormatIssue::Channels(2))));
}

#[test]
fn rejects_44100_hz() {
    let bytes = wav_bytes(1, 44100, 16, &[0]);
    assert_eq!(
        parse_wav_file(&bytes),
        Err(MediaError::UnexpectedFormat(FormatIssue::SampleRate(44100)))
    );
}

#[test]
fn rejects_8_bit_samples() {
    let bytes = wav_bytes(1, 16000, 8, &[3]);
    assert_eq!(
        parse_wav_file(&bytes),
        Err(MediaError::UnexpectedFormat(FormatIssue::BitsPerSample(8)))
    );
}

#[test]
fn rejects_float_samples() {
    assert_eq!(
        parse_wav_file(&float_wav_bytes()),
        Err(MediaError::UnexpectedFormat(FormatIssue::NotInteger))
    );
}

#[test]
fn rejects_unreadable_bytes() {
    assert_eq!(
        parse_wav_file(b"not a wav stream"),
        Err(MediaError::UnexpectedFormat(FormatIssue::Unreadable))
    );
}

#[test]
fn format_check_order() {
    let ok = WavFormat { channels: 1, sample_rate: 16000, bits_per_sample: 16, sample_kind: SampleKind::Int };
    assert_eq!(check_wav_format(&ok), Ok(()));
    let all_wrong = WavFormat { channels: 2, sample_rate: 44100, bits_per_sample: 8, sample_kind: SampleKind::Float };
    assert_eq!(check_wav_format(&all_wrong), Err(FormatIssue::Channels(2)));
    let rate_and_bits = WavFormat { sample_rate: 44100, bits_per_sample: 8, ..ok };
    assert_eq!(check_wav_format(&rate_and_bits), Err(FormatIssue::SampleRate(44100)));
    let bits = WavFormat { bits_per_sample: 8, ..ok };
    assert_eq!(check_wav_format(&bits), Err(FormatIssue::BitsPerSample(8)));
    let float = WavFormat { sample_kind: SampleKind::Float, ..ok };
    assert_eq!(check_wav_format(&float), Err(FormatIssue::NotInteger));
}

#[test]
fn tool_exit_verdict() {
    assert_eq!(check_tool_exit(true, "noise".to_string()), Ok(()));
    assert_eq!(
        check_tool_exit(false, "no such file".to_string()),
        Err(MediaError::ToolFailed("no such file".to_string()))
    );
}

#[test]
fn decoding_tool_arguments() {
    let args = extract_audio_args("in.mp4", "/tmp/out.wav");
    assert_eq!(
        args,
        vec![
            "-i", "in.mp4", "-vn", "-ar", "16000", "-ac", "1", "-sample_fmt", "s16", "-f", "wav",
            "/tmp/out.wav"
        ]
    );
}
