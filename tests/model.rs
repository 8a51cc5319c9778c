use subtitle_generator::model::{
    get_model_path, get_models_dir, model_url, plan_ensure, DownloadProgress, EnsurePlan, ModelError,
};

#[test]
fn present_model_needs_no_download() {
    assert_eq!(plan_ensure(true, "ggml-base.bin"), EnsurePlan::UseCached);
}

#[test]
fn absent_model_is_downloaded() {
    assert_eq!(
        plan_ensure(false, "ggml-base.bin"),
        EnsurePlan::Download {
            url: "https://huggingface.co/ggerganov/whisper.cpp/resolve/main/ggml-base.bin".to_string()
        }
    );
    assert_eq!(
        model_url("m.bin"),
        "https://huggingface.co/ggerganov/whisper.cpp/resolve/main/m.bin"
    );
}

#[test]
fn model_paths() {
    let dir = get_models_dir("/home/u/.config/video-subtitle");
    assert_eq!(dir, "/home/u/.config/video-subtitle/models");
    assert_eq!(get_model_path(&dir, "ggml-medium-q8_0.bin"), "/home/u/.config/video-subtitle/models/ggml-medium-q8_0.bin");
}

#[test]
fn unknown_size_is_refused() {
    assert!(matches!(DownloadProgress::start(None), Err(ModelError::SizeUnknown)));
}

#[test]
fn download_of_exact_length() {
    let mut p = DownloadProgress::start(Some(10)).unwrap();
    assert_eq!(p.bytes_downloaded, 0);
    assert_eq!(p.total_bytes, 10);
    assert_eq!(p.record_chunk(4), Ok(()));
    assert_eq!(p.bytes_downloaded, 4);
    assert_eq!(p.record_chunk(6), Ok(()));
    assert_eq!(p.bytes_downloaded, 10);
    assert_eq!(p.finish(), Ok(()));
}

#[test]
fn short_download_fails() {
    let mut p = DownloadProgress::start(Some(10)).unwrap();
    assert_eq!(p.record_chunk(9), Ok(()));
    assert_eq!(p.finish(), Err(ModelError::LengthMismatch { expected: 10 }));
}

#[test]
fn oversized_chunk_is_refused() {
    let mut p = DownloadProgress::start(Some(10)).unwrap();
    assert_eq!(p.record_chunk(8), Ok(()));
    assert_eq!(p.record_chunk(3), Err(ModelError::LengthMismatch { expected: 10 }));
    assert_eq!(p.bytes_downloaded, 8);
    assert_eq!(p.record_chunk(u64::MAX), Err(ModelError::LengthMismatch { expected: 10 }));
}

#[test]
fn empty_model_download() {
    let p = DownloadProgress::start(Some(0)).unwrap();
    assert_eq!(p.finish(), Ok(()));
}
