use video_capture::capture::{ReadOutcome, ReceiveStep, VideoCapture, VideoCaptureError, RTSP_TRANSPORT};
use video_capture::cstr::c_string_bytes;

#[test]
fn path_without_nul_keeps_its_bytes() {
    let bytes = VideoCapture::create_cpath("rtsp://192.168.123.123:1234/").unwrap();
    assert_eq!(bytes, b"rtsp://192.168.123.123:1234/".to_vec());
}

#[test]
fn path_with_nul_cannot_be_opened() {
    assert_eq!(
        VideoCapture::create_cpath("rtsp://cam\0era/"),
        Err(VideoCaptureError::FailedToOpenFile)
    );
}

#[test]
fn empty_path_is_a_c_string() {
    assert_eq!(c_string_bytes(""), Some(Vec::new()));
}

#[test]
fn non_ascii_path_keeps_its_utf8_bytes() {
    assert_eq!(c_string_bytes("caméra.mp4"), Some("caméra.mp4".as_bytes().to_vec()));
}

#[test]
fn timeout_is_given_in_microseconds() {
    assert_eq!(VideoCapture::timeout_micros(10000), 10_000_000);
    assert_eq!(VideoCapture::timeout_micros(0), 0);
    assert_eq!(VideoCapture::timeout_micros(u32::MAX), u32::MAX as u64 * 1000);
}

#[test]
fn input_request_carries_url_and_timeout() {
    let request = VideoCapture::create_input("movie.mp4", 250).unwrap();
    assert_eq!(request.url, b"movie.mp4".to_vec());
    assert_eq!(request.timeout_us, 250_000);
    assert!(matches!(
        VideoCapture::create_input("a\0b", 250),
        Err(VideoCaptureError::FailedToOpenFile)
    ));
    assert_eq!(RTSP_TRANSPORT, "tcp");
}

#[test]
fn best_stream_gives_the_capture() {
    let capture = VideoCapture::from_best_stream(Some((2, 1920))).ok().unwrap();
    assert_eq!(capture.video_index(), 2);
}

#[test]
fn missing_video_stream_is_reported() {
    assert!(matches!(
        VideoCapture::from_best_stream(None),
        Err(VideoCaptureError::FailedToFindVideo)
    ));
}

#[test]
fn stream_without_width_counts_as_unopened() {
    assert!(matches!(
        VideoCapture::from_best_stream(Some((0, 0))),
        Err(VideoCaptureError::FailedToOpenFile)
    ));
    assert!(matches!(
        VideoCapture::from_best_stream(Some((0, -5))),
        Err(VideoCaptureError::FailedToOpenFile)
    ));
    assert!(VideoCapture::from_best_stream(Some((0, 1))).is_ok());
}

#[test]
fn receive_delivers_only_the_video_stream() {
    let capture = VideoCapture::new(1);
    assert_eq!(capture.receive(ReadOutcome::Packet { stream_index: 1 }), ReceiveStep::Deliver);
    assert_eq!(capture.receive(ReadOutcome::Packet { stream_index: 0 }), ReceiveStep::ReadAgain);
    assert_eq!(capture.receive(ReadOutcome::Packet { stream_index: 2 }), ReceiveStep::ReadAgain);
}

#[test]
fn receive_stops_at_end_and_fails_on_read_error() {
    let capture = VideoCapture::new(0);
    assert_eq!(capture.receive(ReadOutcome::EndOfStream), ReceiveStep::EndOfStream);
    assert_eq!(
        capture.receive(ReadOutcome::Failed),
        ReceiveStep::Fail(VideoCaptureError::ErrReadingFile)
    );
}

#[test]
fn receive_loop_skips_audio_until_video() {
    let capture = VideoCapture::new(0);
    let reads = [
        ReadOutcome::Packet { stream_index: 1 },
        ReadOutcome::Packet { stream_index: 1 },
        ReadOutcome::Packet { stream_index: 0 },
    ];
    let mut delivered_at = None;
    for (i, read) in reads.iter().enumerate() {
        match capture.receive(*read) {
            ReceiveStep::ReadAgain => continue,
            step => {
                assert_eq!(step, ReceiveStep::Deliver);
                delivered_at = Some(i);
                break;
            }
        }
    }
    assert_eq!(delivered_at, Some(2));
}

#[test]
fn repeated_receive_hands_out_video_packets_until_the_end() {
    let capture = VideoCapture::new(0);
    let reads = [
        ReadOutcome::Packet { stream_index: 0 },
        ReadOutcome::Packet { stream_index: 1 },
        ReadOutcome::Packet { stream_index: 0 },
        ReadOutcome::EndOfStream,
        ReadOutcome::Packet { stream_index: 0 },
    ];
    let mut delivered = Vec::new();
    for (i, read) in reads.iter().enumerate() {
        match capture.receive(*read) {
            ReceiveStep::Deliver => delivered.push(i),
            ReceiveStep::ReadAgain => {}
            ReceiveStep::EndOfStream | ReceiveStep::Fail(_) => break,
        }
    }
    assert_eq!(delivered, vec![0, 2]);
}
