use std::io::Cursor;

use ir_loader::error::IRLoaderError;
use ir_loader::ir::ImpulseResponse;
use ir_loader::wav::{decoding_for, first_channel, SampleDecoding, WavFormat};

fn int_format(channels: u16, bits: u16) -> WavFormat {
    WavFormat { channels, sample_rate: 48000, bits_per_sample: bits, is_float: false }
}

#[test]
fn int_depths_scale_by_half_range() {
    assert_eq!(decoding_for(&int_format(1, 8)), Ok(SampleDecoding::Int { full_scale: 128 }));
    assert_eq!(decoding_for(&int_format(1, 16)), Ok(SampleDecoding::Int { full_scale: 32768 }));
    assert_eq!(decoding_for(&int_format(2, 24)), Ok(SampleDecoding::Int { full_scale: 8388608 }));
    assert_eq!(decoding_for(&int_format(1, 32)), Ok(SampleDecoding::Int { full_scale: 2147483648 }));
}

#[test]
fn float_32_is_taken_as_is() {
    let f = WavFormat { channels: 1, sample_rate: 44100, bits_per_sample: 32, is_float: true };
    assert_eq!(decoding_for(&f), Ok(SampleDecoding::Float));
}

#[test]
fn unsupported_formats_are_decode_errors() {
    let f64_format = WavFormat { channels: 1, sample_rate: 44100, bits_per_sample: 64, is_float: true };
    assert_eq!(decoding_for(&f64_format), Err(IRLoaderError::WavError));
    assert_eq!(decoding_for(&int_format(1, 12)), Err(IRLoaderError::WavError));
    assert_eq!(decoding_for(&int_format(0, 16)), Err(IRLoaderError::WavError));
}

#[test]
fn first_channel_takes_every_frame_start() {
    let interleaved: Vec<i32> = vec![1, 10, 2, 20, 3, 30, 4];
    assert_eq!(first_channel(&interleaved, 2), vec![1, 2, 3]);
    assert_eq!(first_channel(&interleaved, 1), interleaved);
    let empty: Vec<i32> = vec![];
    assert_eq!(first_channel(&empty, 3), empty);
}

#[test]
fn load_keeps_response_on_bad_format() {
    let mut ir: ImpulseResponse<f32> = ImpulseResponse::new();
    ir.load("good.wav".to_string(), &int_format(1, 16), vec![0.5, 0.25]).unwrap();
    let r = ir.load("bad.wav".to_string(), &int_format(1, 12), vec![0.1]);
    assert_eq!(r, Err(IRLoaderError::WavError));
    assert_eq!(ir.samples, vec![0.5, 0.25]);
    assert_eq!(ir.file, Some("good.wav".to_string()));
}

fn wav_bytes(channels: u16, rate: u32, frames: &[i16]) -> Vec<u8> {
    let spec = hound::WavSpec {
        channels,
        sample_rate: rate,
        bits_per_sample: 16,
        sample_format: hound::SampleFormat::Int,
    };
    let mut bytes: Vec<u8> = Vec::new();
    {
        let mut writer = hound::WavWriter::new(Cursor::new(&mut bytes), spec).unwrap();
        for s in frames {
            writer.write_sample(*s).unwrap();
        }
        writer.finalize().unwrap();
    }
    bytes
}

fn decode(bytes: Vec<u8>) -> (WavFormat, Vec<f32>) {
    let mut reader = hound::WavReader::new(Cursor::new(bytes)).unwrap();
    let spec = reader.spec();
    let format = WavFormat {
        channels: spec.channels,
        sample_rate: spec.sample_rate,
        bits_per_sample: spec.bits_per_sample,
        is_float: spec.sample_format == hound::SampleFormat::Float,
    };
    let samples = match decoding_for(&format).unwrap() {
        SampleDecoding::Float => reader.samples::<f32>().map(|s| s.unwrap()).collect(),
        SampleDecoding::Int { full_scale } => reader
            .samples::<i32>()
            .map(|s| s.unwrap() as f32 / full_scale as f32)
            .collect(),
    };
    (format, samples)
}

#[test]
fn loading_mono_file_keeps_length_and_rate() {
    let n = 100;
    let frames: Vec<i16> = (0..n).map(|i| (i * 100) as i16).collect();
    let (format, samples) = decode(wav_bytes(1, 22050, &frames));
    let mut ir: ImpulseResponse<f32> = ImpulseResponse::new();
    ir.load("ir.wav".to_string(), &format, samples).unwrap();
    assert_eq!(ir.samples.len(), n);
    assert_eq!(ir.sample_rate, 22050);
    assert_eq!(ir.file, Some("ir.wav".to_string()));
    assert!((ir.samples[1] - 100.0 / 32768.0).abs() < 1e-7);
}

#[test]
fn loading_stereo_file_uses_channel_zero() {
    let frames: Vec<i16> = vec![16384, -1, 0, -1, -16384, -1];
    let (format, samples) = decode(wav_bytes(2, 44100, &frames));
    let mut ir: ImpulseResponse<f32> = ImpulseResponse::new();
    ir.load("st.wav".to_string(), &format, samples).unwrap();
    assert_eq!(ir.samples, vec![0.5, 0.0, -0.5]);
    assert_eq!(ir.sample_rate, 44100);
}
