//! Reading the packets of one video stream out of an FFmpeg input.
use crate::cstr::{c_string_bytes, is_c_compatible};
use vstd::prelude::*;
use vstd::string::StringSliceAdditionalSpecFns;

verus! {

/// Why a video source could not be opened or read.
#[derive(Debug, Clone, Copy, PartialEq, Eq, Structural)]
pub enum VideoCaptureError {
    FailedToOpenFile,
    FailedToFindVideo,
    ErrReadingFile,
}

/// The RTSP transport that every input is opened with.
pub const RTSP_TRANSPORT: &'static str = "tcp";

/// What one read of the input gave.
#[derive(Debug, Clone, Copy, PartialEq, Eq, Structural)]
pub enum ReadOutcome {
    /// A packet of the stream with this index.
    Packet { stream_index: i32 },
    /// The input has no more packets.
    EndOfStream,
    /// The read failed.
    Failed,
}

/// What `receive` does with one read.
#[derive(Debug, Clone, Copy, PartialEq, Eq, Structural)]
pub enum ReceiveStep {
    /// The packet belongs to another stream: drop it and read again.
    ReadAgain,
    /// The packet belongs to the video stream: hand it out.
    Deliver,
    /// The input is exhausted: hand out nothing.
    EndOfStream,
    /// Reading failed with this error.
    Fail(VideoCaptureError),
}

/// How an input is to be opened: the URL as the bytes of a C string, and
/// the socket timeout in microseconds.
pub struct InputRequest {
    pub url: Vec<u8>,
    pub timeout_us: u64,
}

/// A video source once its video stream is known.
pub struct VideoCapture {
    video_index: i32,
}

/// The step that `receive` takes on a read, for the video stream `video_index`.
pub open spec fn spec_receive(video_index: i32, read: ReadOutcome) -> ReceiveStep {
    match read {
        ReadOutcome::Packet { stream_index } => if stream_index == video_index {
            ReceiveStep::Deliver
        } else {
            ReceiveStep::ReadAgain
        },
        ReadOutcome::EndOfStream => ReceiveStep::EndOfStream,
        ReadOutcome::Failed => ReceiveStep::Fail(VideoCaptureError::ErrReadingFile),
    }
}

/// The timeout option: milliseconds turned into microseconds.
pub open spec fn spec_timeout_us(timeout_ms: u32) -> int {
    timeout_ms * 1000
}

impl VideoCapture {
    /// The index of the video stream that packets are taken from.
    pub closed spec fn stream(&self) -> i32 {
        self.video_index
    }

    /// A capture of the stream with index `video_index`.
    pub fn new(video_index: i32) -> (capture: Self)
        ensures
            capture.stream() == video_index,
    {
        VideoCapture { video_index }
    }

    pub fn video_index(&self) -> (index: i32)
        ensures
            index == self.stream(),
    {
        self.video_index
    }

    /// The path as the bytes of a C string; a path holding a NUL byte
    /// cannot be opened.
    pub fn create_cpath(path: &str) -> (res: Result<Vec<u8>, VideoCaptureError>)
        ensures
            is_c_compatible(path.spec_bytes()) ==> (res matches Ok(bytes) && bytes@
                == path.spec_bytes()),
            !is_c_compatible(path.spec_bytes()) ==> res == Err::<Vec<u8>, VideoCaptureError>(
                VideoCaptureError::FailedToOpenFile,
            ),
    {
        match c_string_bytes(path) {
            Some(bytes) => Ok(bytes),
            None => Err(VideoCaptureError::FailedToOpenFile),
        }
    }

    /// The timeout option of an input: `timeout_ms` milliseconds in
    /// microseconds (always representable).
    pub fn timeout_micros(timeout_ms: u32) -> (us: u64)
        ensures
            us == spec_timeout_us(timeout_ms),
    {
        timeout_ms as u64 * 1000
    }

    /// How to open the input at `path` with a timeout of `timeout_ms`
    /// milliseconds; a path holding a NUL byte cannot be opened.
    pub fn create_input(path: &str, timeout_ms: u32) -> (res: Result<
        InputRequest,
        VideoCaptureError,
    >)
        ensures
            is_c_compatible(path.spec_bytes()) ==> (res matches Ok(request) && request.url@
                == path.spec_bytes() && request.timeout_us == spec_timeout_us(timeout_ms)
                && request.timeout_us == timeout_ms as int * 1000),
            !is_c_compatible(path.spec_bytes()) ==> res is Err && res->Err_0
                == VideoCaptureError::FailedToOpenFile,
    {
        let url = Self::create_cpath(path)?;
        Ok(InputRequest { url, timeout_us: Self::timeout_micros(timeout_ms) })
    }

    /// The capture that the best video stream of an opened input gives:
    /// `best` is that stream's index and its codec's width, or `None` when
    /// the input has no video stream. A stream whose width is not positive
    /// cannot be decoded, and the input counts as not opened.
    pub fn from_best_stream(best: Option<(usize, i32)>) -> (res: Result<Self, VideoCaptureError>)
        ensures
            match best {
                None => res is Err && res->Err_0 == VideoCaptureError::FailedToFindVideo,
                Some((index, width)) => if width <= 0 {
                    res is Err && res->Err_0 == VideoCaptureError::FailedToOpenFile
                } else {
                    res matches Ok(capture) && capture.stream() == index as i32
                },
            },
    {
        match best {
            None => Err(VideoCaptureError::FailedToFindVideo),
            Some((index, width)) => {
                if width <= 0 {
                    Err(VideoCaptureError::FailedToOpenFile)
                } else {
                    Ok(VideoCapture { video_index: index as i32 })
                }
            },
        }
    }

    /// What to do with one read of the input: deliver packets of the video
    /// stream, read again past packets of other streams, stop at the end of
    /// the input, and fail when the read fails.
    pub fn receive(&self, read: ReadOutcome) -> (step: ReceiveStep)
        ensures
            step == spec_receive(self.stream(), read),
    {
        match read {
            ReadOutcome::Packet { stream_index } => {
                if stream_index == self.video_index {
                    ReceiveStep::Deliver
                } else {
                    ReceiveStep::ReadAgain
                }
            },
            ReadOutcome::EndOfStream => ReceiveStep::EndOfStream,
            ReadOutcome::Failed => ReceiveStep::Fail(VideoCaptureError::ErrReadingFile),
        }
    }
}

/// The timeout sent to FFmpeg is the caller's timeout scaled from
/// milliseconds to microseconds, for every timeout: a thousand times larger,
/// and one millisecond more is always a thousand microseconds more.
pub proof fn lemma_timeout_scales(timeout_ms: u32)
    ensures
        spec_timeout_us(timeout_ms) == timeout_ms as int * 1000,
        timeout_ms < u32::MAX ==> spec_timeout_us((timeout_ms + 1) as u32) == spec_timeout_us(
            timeout_ms,
        ) + 1000,
{
}

/// A delivered packet always belongs to the video stream, and a packet of
/// the video stream is always delivered.
pub proof fn lemma_receive_delivers_exactly_video(video_index: i32, stream_index: i32)
    ensures
        (spec_receive(video_index, ReadOutcome::Packet { stream_index }) == ReceiveStep::Deliver)
            <==> stream_index == video_index,
{
}


/// A read after which `receive` hands out no more packets: the end of the
/// input, or a failure.
pub open spec fn ends_receiving(read: ReadOutcome) -> bool {
    read == ReadOutcome::EndOfStream || read == ReadOutcome::Failed
}

/// Whether `receive`, called again and again over these reads, has already
/// returned the end of the input or an error.
pub open spec fn spec_receive_stopped(video_index: i32, reads: Seq<ReadOutcome>) -> bool
    decreases reads.len(),
{
    if reads.len() == 0 {
        false
    } else {
        spec_receive_stopped(video_index, reads.drop_last()) || match spec_receive(
            video_index,
            reads.last(),
        ) {
            ReceiveStep::EndOfStream => true,
            ReceiveStep::Fail(_) => true,
            _ => false,
        }
    }
}

/// The positions of the reads whose packets `receive`, called again and
/// again over these reads until it returns the end of the input or an
/// error, hands out, in the order it hands them out.
pub open spec fn spec_deliveries(video_index: i32, reads: Seq<ReadOutcome>) -> Seq<int>
    decreases reads.len(),
{
    if reads.len() == 0 {
        Seq::empty()
    } else {
        let earlier = spec_deliveries(video_index, reads.drop_last());
        if spec_receive_stopped(video_index, reads.drop_last()) {
            earlier
        } else if spec_receive(video_index, reads.last()) == ReceiveStep::Deliver {
            earlier.push(reads.len() - 1)
        } else {
            earlier
        }
    }
}

proof fn lemma_stopped_iff_ended(video_index: i32, reads: Seq<ReadOutcome>)
    ensures
        spec_receive_stopped(video_index, reads) <==> exists|j: int|
            0 <= j < reads.len() && ends_receiving(#[trigger] reads[j]),
    decreases reads.len(),
{
    if reads.len() > 0 {
        let init = reads.drop_last();
        lemma_stopped_iff_ended(video_index, init);
        if spec_receive_stopped(video_index, init) {
            let j = choose|j: int| 0 <= j < init.len() && ends_receiving(#[trigger] init[j]);
            assert(reads[j] == init[j]);
        }
        if exists|j: int| 0 <= j < reads.len() && ends_receiving(#[trigger] reads[j]) {
            let j = choose|j: int| 0 <= j < reads.len() && ends_receiving(#[trigger] reads[j]);
            if j < reads.len() - 1 {
                assert(init[j] == reads[j]);
            }
        }
    }
}

/// Calling `receive` again and again over a run of reads hands out exactly
/// the packets of the video stream that come before the first end of the
/// input or read failure, in the order they were read, none twice.
pub proof fn lemma_receive_run(video_index: i32, reads: Seq<ReadOutcome>)
    ensures
        forall|p: int|
            spec_deliveries(video_index, reads).contains(p) <==> (0 <= p < reads.len()
                && reads[p] == ReadOutcome::Packet { stream_index: video_index } && forall|j: int|
                0 <= j < p ==> !ends_receiving(#[trigger] reads[j])),
        forall|a: int, b: int|
            0 <= a < b < spec_deliveries(video_index, reads).len() ==> spec_deliveries(
                video_index,
                reads,
            )[a] < spec_deliveries(video_index, reads)[b],
        forall|a: int|
            0 <= a < spec_deliveries(video_index, reads).len() ==> 0 <= #[trigger] spec_deliveries(
                video_index,
                reads,
            )[a] < reads.len(),
    decreases reads.len(),
{
    let d = spec_deliveries(video_index, reads);
    if reads.len() > 0 {
        let init = reads.drop_last();
        let last = reads.len() - 1;
        lemma_receive_run(video_index, init);
        lemma_stopped_iff_ended(video_index, init);
        let e = spec_deliveries(video_index, init);
        assert forall|p: int|
            d.contains(p) <==> (0 <= p < reads.len() && reads[p] == ReadOutcome::Packet {
                stream_index: video_index,
            } && forall|j: int| 0 <= j < p ==> !ends_receiving(#[trigger] reads[j])) by {
            if 0 <= p < last {
                assert(reads[p] == init[p]);
                assert((forall|j: int| 0 <= j < p ==> !ends_receiving(#[trigger] reads[j])) <==> (
                forall|j: int| 0 <= j < p ==> !ends_receiving(#[trigger] init[j]))) by {
                    assert forall|j: int| 0 <= j < p implies reads[j] == init[j] by {}
                }
                if d.contains(p) {
                    if d != e {
                        let k = choose|k: int| 0 <= k < d.len() && d[k] == p;
                        if k == e.len() {
                            assert(d[k] == last);
                        } else {
                            assert(d[k] == e[k]);
                        }
                    }
                    assert(e.contains(p));
                } else {
                    if e.contains(p) {
                        let k = choose|k: int| 0 <= k < e.len() && e[k] == p;
                        assert(d[k] == e[k]);
                    }
                }
            } else if p == last {
                assert(!e.contains(p));
                assert((forall|j: int| 0 <= j < p ==> !ends_receiving(#[trigger] reads[j])) <==> (
                forall|j: int| 0 <= j < init.len() ==> !ends_receiving(#[trigger] init[j]))) by {
                    assert forall|j: int| 0 <= j < p implies reads[j] == init[j] by {}
                }
                if d.contains(p) {
                    if d == e {
                        assert(false);
                    }
                } else {
                    if d != e {
                        assert(d[e.len() as int] == p);
                    }
                }
            } else {
                if d.contains(p) {
                    let k = choose|k: int| 0 <= k < d.len() && d[k] == p;
                    if k < e.len() {
                        assert(d[k] == e[k]);
                    }
                }
            }
        }
    }
}

} // verus!
