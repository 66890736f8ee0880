use gpui_ohos::screen_capture::{
    check, copy_frame, copy_rows, finish_frame, frame_layout, is_video_buffer, sources,
    AudioCaptureInfo, CaptureCall, CaptureError, EndCall, FrameRefusal, NativeBufferConfig,
    OhosScreenCaptureSource, OhosScreenCaptureStream, BGRA_8888, BGRX_8888, RGBA_8888, RGBX_8888,
};

fn config(width: i32, height: i32, stride: i32, format: i32) -> NativeBufferConfig {
    NativeBufferConfig { width, height, format, stride }
}

/// Two rows of two pixels, with four bytes of padding behind each row but the
/// last.
const MAPPED: [u8; 20] =
    [1, 2, 3, 4, 5, 6, 7, 8, 90, 91, 92, 93, 11, 12, 13, 14, 15, 16, 17, 18];

fn image(format: i32) -> Vec<u8> {
    let frame = copy_frame(&config(2, 2, 12, format), &MAPPED, 0).unwrap();
    assert_eq!((frame.width(), frame.height()), (2, 2));
    frame.into_bytes()
}

#[test]
fn capture_codes() {
    assert!(check(0, "start capture").is_ok());
    let error = check(-5, "start capture").unwrap_err();
    assert_eq!(error.message(), "OHOS AVScreenCapture failed to start capture: -5");
    assert_eq!(CaptureError::Unavailable.message(), "OHOS AVScreenCapture is unavailable");
}

#[test]
fn one_display_is_a_source() {
    let found = sources(1080, 2400).unwrap();
    assert_eq!(found, vec![OhosScreenCaptureSource { width: 1080, height: 2400 }]);
    let metadata = found[0].metadata();
    assert_eq!(metadata.id, 0);
    assert_eq!(metadata.label.as_deref(), Some("OpenHarmony display"));
    assert_eq!(metadata.is_main, Some(true));
    assert_eq!((metadata.width, metadata.height), (1080, 2400));
    for (width, height) in [(0, 5), (5, 0), (-1, 5)] {
        assert_eq!(
            sources(width, height).unwrap_err().message(),
            "OHOS display size is unavailable"
        );
    }
}

fn stream() -> OhosScreenCaptureStream {
    OhosScreenCaptureStream::new(OhosScreenCaptureSource { width: 30, height: 40 }.metadata())
}

#[test]
fn capture_starts_in_order() {
    let mut stream = stream();
    let mut calls = Vec::new();
    while let Some(call) = stream.next_call() {
        calls.push(call);
        stream.answer(0).unwrap();
    }
    assert!(stream.is_started());
    assert_eq!(stream.metadata().width, 30);
    assert_eq!(calls.len(), 6);
    assert_eq!(
        &calls[..4],
        &[
            CaptureCall::Create,
            CaptureCall::SetDataCallback,
            CaptureCall::SetStateCallback,
            CaptureCall::SetErrorCallback,
        ]
    );
    assert_eq!(calls[5], CaptureCall::Start);
    let quiet = AudioCaptureInfo { sample_rate: 0, channels: 0, source: -1 };
    assert!(matches!(
        calls[4],
        CaptureCall::Init(config) if config.width == 30 && config.height == 40
            && config.video_source == 2 && config.microphone == quiet && config.internal == quiet
            && config.capture_mode == 0 && config.data_type == 0 && config.display_id == 0
    ));
    assert_eq!(stream.end_calls(), vec![EndCall::Stop, EndCall::Release]);
}

#[test]
fn failed_start_is_released_but_not_stopped() {
    let texts = [
        "OHOS AVScreenCapture is unavailable",
        "OHOS AVScreenCapture failed to register video callback: 7",
        "OHOS AVScreenCapture failed to register state callback: 7",
        "OHOS AVScreenCapture failed to register error callback: 7",
        "OHOS AVScreenCapture failed to initialize capture: 7",
        "OHOS AVScreenCapture failed to start capture: 7",
    ];
    for (failing, text) in texts.iter().enumerate() {
        let mut stream = stream();
        for _ in 0..failing {
            stream.answer(0).unwrap();
        }
        assert_eq!(stream.answer(7).unwrap_err().message(), *text);
        let expected = if failing == 0 { vec![] } else { vec![EndCall::Release] };
        assert_eq!(stream.end_calls(), expected);
        assert_eq!(stream.next_call(), None);
        assert!(!stream.is_started());
    }
}

#[test]
fn only_video_buffers_are_frames() {
    assert!(is_video_buffer(0, true, true));
    assert!(!is_video_buffer(1, true, true));
    assert!(!is_video_buffer(0, false, true));
    assert!(!is_video_buffer(0, true, false));
}

#[test]
fn bad_frames_are_refused() {
    for bad in [
        config(0, 2, 12, RGBA_8888),
        config(2, 0, 12, RGBA_8888),
        config(-2, 2, 12, RGBA_8888),
        config(2, -2, 12, RGBA_8888),
        config(2, 2, -12, RGBA_8888),
        config(2, 2, 7, RGBA_8888),
        config(8192, 8193, 32768, RGBA_8888),
        config(i32::MAX, i32::MAX, i32::MAX, RGBA_8888),
    ] {
        assert_eq!(frame_layout(&bad), Err(FrameRefusal::BadSize));
    }
    assert_eq!(frame_layout(&config(2, 2, 12, 13)), Err(FrameRefusal::UnsupportedFormat));
    assert_eq!(frame_layout(&config(0, 2, 12, 13)), Err(FrameRefusal::BadSize));
    assert!(frame_layout(&config(8192, 8192, 32768, BGRX_8888)).is_ok());
    assert!(copy_frame(&config(2, 2, 12, 13), &MAPPED, 0).is_none());
}

#[test]
fn rows_lose_their_padding() {
    let layout = frame_layout(&config(2, 2, 12, RGBA_8888)).unwrap();
    assert_eq!((layout.row_bytes, layout.frame_bytes), (8, 16));
    assert_eq!(
        copy_rows(&layout, &MAPPED),
        vec![1, 2, 3, 4, 5, 6, 7, 8, 11, 12, 13, 14, 15, 16, 17, 18]
    );
}

#[test]
fn formats_become_rgba() {
    assert_eq!(image(RGBA_8888), vec![1, 2, 3, 4, 5, 6, 7, 8, 11, 12, 13, 14, 15, 16, 17, 18]);
    assert_eq!(
        image(RGBX_8888),
        vec![1, 2, 3, 255, 5, 6, 7, 255, 11, 12, 13, 255, 15, 16, 17, 255]
    );
    assert_eq!(image(BGRA_8888), vec![3, 2, 1, 4, 7, 6, 5, 8, 13, 12, 11, 14, 17, 16, 15, 18]);
    assert_eq!(
        image(BGRX_8888),
        vec![3, 2, 1, 255, 7, 6, 5, 255, 13, 12, 11, 255, 17, 16, 15, 255]
    );
}

#[test]
fn memory_that_stays_mapped_gives_no_image() {
    let layout = frame_layout(&config(2, 2, 12, RGBA_8888)).unwrap();
    let rows = copy_rows(&layout, &MAPPED);
    assert!(finish_frame(&layout, rows.clone(), 3).is_none());
    let frame = finish_frame(&layout, rows, 0).unwrap();
    assert_eq!((frame.width(), frame.height()), (2, 2));
    assert!(copy_frame(&config(2, 2, 12, RGBA_8888), &MAPPED, 3).is_none());
}

#[test]
fn memory_of_a_frame_ends_with_its_last_row() {
    let layout = frame_layout(&config(2, 2, 12, RGBA_8888)).unwrap();
    assert_eq!(layout.mapped_len(), Some(MAPPED.len()));
    let layout = frame_layout(&config(3, 1, 64, BGRA_8888)).unwrap();
    assert_eq!(layout.mapped_len(), Some(12));
    let widest = frame_layout(&config(1, 67108864, i32::MAX, RGBA_8888)).unwrap();
    let bytes = 67108863u128 * i32::MAX as u128 + 4;
    assert_eq!(widest.mapped_len(), usize::try_from(bytes).ok());
}
