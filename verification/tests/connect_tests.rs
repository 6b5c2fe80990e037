use video_capture::capture::VideoCaptureError;
use video_capture::connect::{ConnectError, OpeningInput};
use video_capture::connect;
use video_capture::decoder::{DecoderError, HwDeviceType, TargetOs};
use video_capture::writer::{
    create_cpath, frame_written, output_opened, trailer_written, VideoWriterError, MOV_FLAGS,
    OUTPUT_FORMAT,
};

#[test]
fn connect_walks_through_every_stage() {
    let stage = connect("rtsp://cam/", 10000, false, TargetOs::Linux).ok().unwrap();
    assert_eq!(stage.request.url, b"rtsp://cam/".to_vec());
    assert_eq!(stage.request.timeout_us, 10_000_000);
    assert_eq!(stage.decoder, Ok(None));
    let (finding, input) = stage.opened(Ok::<&str, ()>("input")).ok().unwrap();
    assert_eq!(input, "input");
    let request = finding.found(Some((3, 640))).ok().unwrap();
    assert_eq!(request.device, None);
    assert_eq!(request.capture.video_index(), 3);
    let (capture, decoder) = request.opened(Ok::<u8, DecoderError>(9)).ok().unwrap();
    assert_eq!(capture.video_index(), 3);
    assert_eq!(decoder, 9);
}

#[test]
fn connect_with_hardware_uses_the_default_device() {
    let stage = connect("x", 1, true, TargetOs::MacOs).ok().unwrap();
    assert_eq!(stage.decoder, Ok(Some(HwDeviceType::VideoToolbox)));
}

#[test]
fn connect_refuses_nul_in_path() {
    assert!(matches!(
        connect("a\0", 1, false, TargetOs::Linux),
        Err(ConnectError::Capture(VideoCaptureError::FailedToOpenFile))
    ));
}

#[test]
fn input_open_failure_is_failed_to_open() {
    let stage = OpeningInput::start("x", 1, Ok(None)).ok().unwrap();
    assert!(matches!(
        stage.opened(Err::<(), &str>("refused")),
        Err(ConnectError::Capture(VideoCaptureError::FailedToOpenFile))
    ));
}

#[test]
fn capture_errors_come_before_decoder_errors() {
    let stage = connect("x", 1, true, TargetOs::Other).ok().unwrap();
    let (finding, _) = stage.opened(Ok::<(), ()>(())).ok().unwrap();
    assert!(matches!(
        finding.found(None),
        Err(ConnectError::Capture(VideoCaptureError::FailedToFindVideo))
    ));
    let stage = connect("x", 1, true, TargetOs::Other).ok().unwrap();
    let (finding, _) = stage.opened(Ok::<(), ()>(())).ok().unwrap();
    assert!(matches!(
        finding.found(Some((0, 0))),
        Err(ConnectError::Capture(VideoCaptureError::FailedToOpenFile))
    ));
    let stage = connect("x", 1, true, TargetOs::Other).ok().unwrap();
    let (finding, _) = stage.opened(Ok::<(), ()>(())).ok().unwrap();
    assert!(matches!(
        finding.found(Some((0, 320))),
        Err(ConnectError::Decoder(DecoderError::UnsupportedPlatform))
    ));
}

#[test]
fn decoder_failure_is_reported() {
    let stage = connect("x", 1, false, TargetOs::Linux).ok().unwrap();
    let (finding, _) = stage.opened(Ok::<(), ()>(())).ok().unwrap();
    let request = finding.found(Some((0, 320))).ok().unwrap();
    assert!(matches!(
        request.opened(Err::<(), DecoderError>(DecoderError::NoHwConfig)),
        Err(ConnectError::Decoder(DecoderError::NoHwConfig))
    ));
}

#[test]
fn writer_errors() {
    assert_eq!(create_cpath("out.mp4"), Ok(b"out.mp4".to_vec()));
    assert_eq!(create_cpath("o\0ut.mp4"), Err(VideoWriterError::FailedToOpenFile));
    assert_eq!(output_opened(Ok::<u8, ()>(4)), Ok(4));
    assert_eq!(output_opened(Err::<u8, ()>(())), Err(VideoWriterError::FailedToOpenFile));
    assert_eq!(frame_written(Ok::<(), ()>(())), Ok(()));
    assert_eq!(frame_written(Err::<(), ()>(())), Err(VideoWriterError::FailedToWriteFrame));
    assert_eq!(trailer_written(Ok::<(), ()>(())), Ok(()));
    assert_eq!(trailer_written(Err::<(), ()>(())), Err(VideoWriterError::FailedToWriteTrailer));
    assert_eq!(OUTPUT_FORMAT, "mp4");
    assert_eq!(MOV_FLAGS, "frag_keyframe+empty_moov+default_base_moof");
}
