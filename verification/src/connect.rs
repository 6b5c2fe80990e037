//! Connecting to a source: open the input, find its video stream, open a
//! decoder. Each stage takes what FFmpeg answered and says what comes next.
use crate::capture::{spec_timeout_us, InputRequest, VideoCapture, VideoCaptureError};
use crate::cstr::is_c_compatible;
use crate::decoder::{DecoderError, HwDeviceType};
use vstd::prelude::*;
use vstd::string::StringSliceAdditionalSpecFns;

verus! {

/// Why connecting failed: at the source, or at the decoder.
#[derive(Debug, Clone, Copy, PartialEq, Eq, Structural)]
pub enum ConnectError {
    Capture(VideoCaptureError),
    Decoder(DecoderError),
}

/// The first stage: the input is to be opened as `request` says.
pub struct OpeningInput {
    pub request: InputRequest,
    /// The device the decoder will be asked for, or why there is none.
    pub decoder: Result<Option<HwDeviceType>, DecoderError>,
}

/// The input is open; its best video stream is to be found.
pub struct FindingStream {
    pub decoder: Result<Option<HwDeviceType>, DecoderError>,
}

/// The video stream is known; a decoder is to be opened on `device`
/// (software decoding when `None`).
pub struct DecoderRequest {
    pub capture: VideoCapture,
    pub device: Option<HwDeviceType>,
}

impl OpeningInput {
    /// Begins connecting to `path` with a timeout of `timeout_ms`
    /// milliseconds and a decoder on the given device. A path holding a NUL
    /// byte fails at once.
    pub fn start(path: &str, timeout_ms: u32, decoder: Result<Option<HwDeviceType>, DecoderError>) -> (res: Result<
        OpeningInput,
        ConnectError,
    >)
        ensures
            is_c_compatible(path.spec_bytes()) ==> (res matches Ok(stage) && stage.request.url@
                == path.spec_bytes() && stage.request.timeout_us == spec_timeout_us(timeout_ms)
                && stage.request.timeout_us == timeout_ms as int * 1000
                && stage.decoder == decoder),
            !is_c_compatible(path.spec_bytes()) ==> res == Err::<OpeningInput, ConnectError>(
                ConnectError::Capture(VideoCaptureError::FailedToOpenFile),
            ),
    {
        match VideoCapture::create_input(path, timeout_ms) {
            Ok(request) => Ok(OpeningInput { request, decoder }),
            Err(e) => Err(ConnectError::Capture(e)),
        }
    }

    /// Takes the result of opening the input: a failure means the source
    /// could not be opened; the opened input is handed back.
    pub fn opened<T, E>(self, input: Result<T, E>) -> (res: Result<(FindingStream, T), ConnectError>)
        ensures
            match input {
                Ok(t) => res matches Ok((stage, t2)) && t2 == t && stage.decoder == self.decoder,
                Err(_) => res == Err::<(FindingStream, T), ConnectError>(
                    ConnectError::Capture(VideoCaptureError::FailedToOpenFile),
                ),
            },
    {
        match input {
            Ok(t) => Ok((FindingStream { decoder: self.decoder }, t)),
            Err(_) => Err(ConnectError::Capture(VideoCaptureError::FailedToOpenFile)),
        }
    }
}

impl FindingStream {
    /// Takes the best video stream of the input (its index and its codec's
    /// width), or `None` when there is none. The capture's errors come
    /// first; then a decoder device that this platform lacks.
    pub fn found(self, best: Option<(usize, i32)>) -> (res: Result<DecoderRequest, ConnectError>)
        ensures
            match best {
                None => res == Err::<DecoderRequest, ConnectError>(
                    ConnectError::Capture(VideoCaptureError::FailedToFindVideo),
                ),
                Some((index, width)) => if width <= 0 {
                    res == Err::<DecoderRequest, ConnectError>(
                        ConnectError::Capture(VideoCaptureError::FailedToOpenFile),
                    )
                } else {
                    match self.decoder {
                        Ok(device) => res matches Ok(request) && request.capture.stream()
                            == index as i32 && request.device == device,
                        Err(e) => res == Err::<DecoderRequest, ConnectError>(
                            ConnectError::Decoder(e),
                        ),
                    }
                },
            },
    {
        let capture = match VideoCapture::from_best_stream(best) {
            Ok(capture) => capture,
            Err(e) => {
                return Err(ConnectError::Capture(e));
            },
        };
        match self.decoder {
            Ok(device) => Ok(DecoderRequest { capture, device }),
            Err(e) => Err(ConnectError::Decoder(e)),
        }
    }
}

impl DecoderRequest {
    /// Takes the result of opening the decoder (and its scaler); on success
    /// the connection is complete.
    pub fn opened<D>(self, decoder: Result<D, DecoderError>) -> (res: Result<
        (VideoCapture, D),
        ConnectError,
    >)
        ensures
            match decoder {
                Ok(d) => res matches Ok((capture, d2)) && d2 == d && capture.stream()
                    == self.capture.stream(),
                Err(e) => res == Err::<(VideoCapture, D), ConnectError>(ConnectError::Decoder(e)),
            },
    {
        match decoder {
            Ok(d) => Ok((self.capture, d)),
            Err(e) => Err(ConnectError::Decoder(e)),
        }
    }
}

} // verus!
