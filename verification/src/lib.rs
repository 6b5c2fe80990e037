//! Capturing frames from video streams: the decisions that drive an FFmpeg
//! input, its decoder, a keyframe-aligned packet buffer and an MP4 writer.
pub mod binding;
pub mod buffer;
pub mod capture;
pub mod capture_loop;
pub mod connect;
pub mod cstr;
pub mod decoder;
pub mod writer;

use crate::capture::spec_timeout_us;
use crate::connect::{ConnectError, OpeningInput};
use crate::cstr::is_c_compatible;
use crate::decoder::{decoder_device_for_flag, spec_device_for_flag, TargetOs};
use crate::capture::VideoCaptureError;
use vstd::prelude::*;
use vstd::string::StringSliceAdditionalSpecFns;

verus! {

/// Starts connecting to the source at `path` with a timeout of `timeout`
/// milliseconds, to be decoded on the platform's default hardware device
/// when `use_hardware` holds and in software otherwise. The returned stage
/// says how to open the input; a path holding a NUL byte fails at once.
pub fn connect(path: &str, timeout: u32, use_hardware: bool, os: TargetOs) -> (res: Result<
    OpeningInput,
    ConnectError,
>)
    ensures
        is_c_compatible(path.spec_bytes()) ==> (res matches Ok(stage) && stage.request.url@
            == path.spec_bytes() && stage.request.timeout_us == spec_timeout_us(timeout)
            && stage.request.timeout_us == timeout as int * 1000
            && stage.decoder == spec_device_for_flag(use_hardware, os)),
        !is_c_compatible(path.spec_bytes()) ==> res == Err::<OpeningInput, ConnectError>(
            ConnectError::Capture(VideoCaptureError::FailedToOpenFile),
        ),
{
    OpeningInput::start(path, timeout, decoder_device_for_flag(use_hardware, os))
}

} // verus!
