use video_capture::binding::{
    connect_exception, grab_guard, latest_frame, writer_exception, ExceptionKind,
};
use video_capture::capture::VideoCaptureError;
use video_capture::connect::ConnectError;
use video_capture::decoder::DecoderError;

#[test]
fn open_failure_names_the_source() {
    let e = connect_exception(
        ConnectError::Capture(VideoCaptureError::FailedToOpenFile),
        "rtsp://192.168.123.123:1234/",
    );
    assert_eq!(e.kind, ExceptionKind::Connection);
    assert_eq!(e.message, "Failed to open video source: rtsp://192.168.123.123:1234/");
}

#[test]
fn each_error_raises_its_exception() {
    let cases = [
        (
            ConnectError::Capture(VideoCaptureError::FailedToFindVideo),
            ExceptionKind::Connection,
            "No video stream found in source",
        ),
        (
            ConnectError::Capture(VideoCaptureError::ErrReadingFile),
            ExceptionKind::Io,
            "Error reading from video source",
        ),
        (
            ConnectError::Decoder(DecoderError::UnsupportedPlatform),
            ExceptionKind::Value,
            "Selected hardware acceleration is not supported on this platform",
        ),
        (
            ConnectError::Decoder(DecoderError::FailedToOpenDecoder),
            ExceptionKind::Value,
            "Failed to open decoder",
        ),
        (
            ConnectError::Decoder(DecoderError::NoHwConfig),
            ExceptionKind::Value,
            "No hardware decoder config found for codec",
        ),
    ];
    for (err, kind, message) in cases {
        let e = connect_exception(err, "ignored");
        assert_eq!(e.kind, kind);
        assert_eq!(e.message, message);
    }
}

#[test]
fn writer_failure_is_an_io_error() {
    let e = writer_exception();
    assert_eq!(e.kind, ExceptionKind::Io);
    assert_eq!(e.message, "Failed to open writer");
}

#[test]
fn grab_on_closed_connection_is_refused() {
    assert!(grab_guard(false).is_ok());
    let e = grab_guard(true).err().unwrap();
    assert_eq!(e.kind, ExceptionKind::Connection);
    assert_eq!(e.message, "Connection is closed");
}

#[test]
fn grab_returns_the_newest_frame() {
    let decoded = vec![vec![vec![1u8]], vec![vec![2u8], vec![3u8]], vec![]];
    assert_eq!(latest_frame(decoded), Some(vec![3u8]));
}

#[test]
fn grab_without_frames_returns_none() {
    assert_eq!(latest_frame::<Vec<u8>>(vec![]), None);
    assert_eq!(latest_frame::<Vec<u8>>(vec![vec![], vec![]]), None);
}

#[test]
fn frame_size_of_rgb24_is_kept() {
    let (width, height) = (4usize, 2usize);
    let frame = vec![0u8; width * height * 3];
    let got = latest_frame(vec![vec![frame.clone()]]).unwrap();
    assert_eq!(got.len(), 24);
    assert_eq!(got, frame);
}

#[test]
fn connection_starts_open_and_grabs_go_ahead() {
    let state = video_capture::binding::ConnectionState::new();
    assert!(!state.is_closed());
    assert!(state.grab_check().is_ok());
}

#[test]
fn every_grab_after_close_is_refused() {
    let mut state = video_capture::binding::ConnectionState::new();
    state.close();
    for _ in 0..3 {
        let e = state.grab_check().err().unwrap();
        assert_eq!(e.kind, ExceptionKind::Connection);
        assert_eq!(e.message, "Connection is closed");
    }
    state.close();
    assert!(state.is_closed());
}
