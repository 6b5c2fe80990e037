//! What the Python-facing capture object decides: which exception a
//! failure raises, when grabbing is refused, and which frame it returns.
use crate::capture::VideoCaptureError;
use crate::connect::ConnectError;
use crate::decoder::DecoderError;
use vstd::prelude::*;
use vstd::string::StringExecFns;

verus! {

/// The Python exception classes that the library raises.
#[derive(Debug, Clone, Copy, PartialEq, Eq, Structural)]
pub enum ExceptionKind {
    /// `ConnectionError`
    Connection,
    /// `IOError`
    Io,
    /// `ValueError`
    Value,
}

/// An exception to raise: its class and its message.
pub struct PythonException {
    pub kind: ExceptionKind,
    pub message: String,
}

/// The class of the exception that a failed connection raises.
pub open spec fn spec_connect_kind(err: ConnectError) -> ExceptionKind {
    match err {
        ConnectError::Capture(VideoCaptureError::FailedToOpenFile) => ExceptionKind::Connection,
        ConnectError::Capture(VideoCaptureError::FailedToFindVideo) => ExceptionKind::Connection,
        ConnectError::Capture(VideoCaptureError::ErrReadingFile) => ExceptionKind::Io,
        ConnectError::Decoder(_) => ExceptionKind::Value,
    }
}

/// The message of the exception that a failed connection to `path` raises.
pub open spec fn spec_connect_message(err: ConnectError, path: Seq<char>) -> Seq<char> {
    match err {
        ConnectError::Capture(VideoCaptureError::FailedToOpenFile) => "Failed to open video source: "@
            + path,
        ConnectError::Capture(VideoCaptureError::FailedToFindVideo) => "No video stream found in source"@,
        ConnectError::Capture(VideoCaptureError::ErrReadingFile) => "Error reading from video source"@,
        ConnectError::Decoder(DecoderError::UnsupportedPlatform) => "Selected hardware acceleration is not supported on this platform"@,
        ConnectError::Decoder(DecoderError::FailedToOpenDecoder) => "Failed to open decoder"@,
        ConnectError::Decoder(DecoderError::NoHwConfig) => "No hardware decoder config found for codec"@,
    }
}

/// The exception that a failed connection to `path` raises: a source that
/// cannot be opened or has no video stream raises `ConnectionError`, a read
/// failure `IOError`, and any decoder failure `ValueError`.
pub fn connect_exception(err: ConnectError, path: &str) -> (e: PythonException)
    ensures
        e.kind == spec_connect_kind(err),
        e.message@ == spec_connect_message(err, path@),
{
    match err {
        ConnectError::Capture(VideoCaptureError::FailedToOpenFile) => PythonException {
            kind: ExceptionKind::Connection,
            message: String::from_str("Failed to open video source: ").concat(path),
        },
        ConnectError::Capture(VideoCaptureError::FailedToFindVideo) => PythonException {
            kind: ExceptionKind::Connection,
            message: String::from_str("No video stream found in source"),
        },
        ConnectError::Capture(VideoCaptureError::ErrReadingFile) => PythonException {
            kind: ExceptionKind::Io,
            message: String::from_str("Error reading from video source"),
        },
        ConnectError::Decoder(DecoderError::UnsupportedPlatform) => PythonException {
            kind: ExceptionKind::Value,
            message: String::from_str(
                "Selected hardware acceleration is not supported on this platform",
            ),
        },
        ConnectError::Decoder(DecoderError::FailedToOpenDecoder) => PythonException {
            kind: ExceptionKind::Value,
            message: String::from_str("Failed to open decoder"),
        },
        ConnectError::Decoder(DecoderError::NoHwConfig) => PythonException {
            kind: ExceptionKind::Value,
            message: String::from_str("No hardware decoder config found for codec"),
        },
    }
}

/// The exception raised when the file that the stream is saved to cannot
/// be opened: `IOError`.
pub fn writer_exception() -> (e: PythonException)
    ensures
        e.kind == ExceptionKind::Io,
        e.message@ == "Failed to open writer"@,
{
    PythonException { kind: ExceptionKind::Io, message: String::from_str("Failed to open writer") }
}

/// Whether a grab may go ahead: on a closed connection it raises
/// `ConnectionError`.
pub fn grab_guard(closed: bool) -> (res: Result<(), PythonException>)
    ensures
        !closed ==> res is Ok,
        closed ==> (res matches Err(e) && e.kind == ExceptionKind::Connection && e.message@
            == "Connection is closed"@),
{
    if closed {
        Err(
            PythonException {
                kind: ExceptionKind::Connection,
                message: String::from_str("Connection is closed"),
            },
        )
    } else {
        Ok(())
    }
}


/// Whether a capture object's connection is closed. It starts open and,
/// once closed, stays closed: nothing reopens it.
pub struct ConnectionState {
    closed: bool,
}

impl View for ConnectionState {
    type V = bool;

    closed spec fn view(&self) -> bool {
        self.closed
    }
}

impl ConnectionState {
    /// An open connection.
    pub fn new() -> (state: Self)
        ensures
            !state@,
    {
        ConnectionState { closed: false }
    }

    pub fn is_closed(&self) -> (closed: bool)
        ensures
            closed == self@,
    {
        self.closed
    }

    /// Closes the connection: by the caller, by the capture thread when it
    /// stops, or when the writer is gone.
    pub fn close(&mut self)
        ensures
            final(self)@,
    {
        self.closed = true;
    }

    /// Whether a grab may go ahead: it may exactly while the connection is
    /// open; once closed, it raises `ConnectionError`.
    pub fn grab_check(&self) -> (res: Result<(), PythonException>)
        ensures
            !self@ ==> res is Ok,
            self@ ==> (res matches Err(e) && e.kind == ExceptionKind::Connection && e.message@
                == "Connection is closed"@),
    {
        grab_guard(self.closed)
    }
}

/// What can happen to a connection after it was created.
#[derive(Debug, Clone, Copy, PartialEq, Eq, Structural)]
pub enum ConnectionEvent {
    /// `close()` was called.
    Close,
    /// The capture thread stopped.
    CaptureStopped,
    /// Handing a packet to the writer failed.
    WriterGone,
    /// A grab was attempted.
    Grab,
}

/// Whether the connection is closed after `events`, starting from `closed`.
pub open spec fn spec_closed_after(closed: bool, events: Seq<ConnectionEvent>) -> bool
    decreases events.len(),
{
    if events.len() == 0 {
        closed
    } else {
        spec_closed_after(closed || events[0] != ConnectionEvent::Grab, events.drop_first())
    }
}

proof fn lemma_closed_persists(events: Seq<ConnectionEvent>)
    ensures
        spec_closed_after(true, events),
    decreases events.len(),
{
    if events.len() > 0 {
        lemma_closed_persists(events.drop_first());
    }
}

/// Once `close()` has been called, the connection stays closed whatever
/// happens later, so every later grab raises `ConnectionError`.
pub proof fn lemma_grab_refused_after_close(
    closed: bool,
    before: Seq<ConnectionEvent>,
    after: Seq<ConnectionEvent>,
)
    ensures
        spec_closed_after(closed, before + seq![ConnectionEvent::Close] + after),
    decreases before.len(),
{
    if before.len() == 0 {
        assert(before + seq![ConnectionEvent::Close] + after =~= seq![ConnectionEvent::Close]
            + after);
        assert((seq![ConnectionEvent::Close] + after).drop_first() =~= after);
        lemma_closed_persists(after);
    } else {
        let next = closed || before[0] != ConnectionEvent::Grab;
        assert((before + seq![ConnectionEvent::Close] + after).drop_first() =~= before.drop_first()
            + seq![ConnectionEvent::Close] + after);
        lemma_grab_refused_after_close(next, before.drop_first(), after);
    }
}

/// The newest of all frames, taking the batches in order and each batch's
/// frames in order; `None` when there is no frame at all.
pub open spec fn spec_latest<T>(batches: Seq<Seq<T>>) -> Option<T> {
    let all = batches.flatten();
    if all.len() == 0 {
        None
    } else {
        Some(all.last())
    }
}

pub open spec fn views_of<T>(batches: Seq<Vec<T>>) -> Seq<Seq<T>> {
    batches.map_values(|b: Vec<T>| b@)
}

proof fn lemma_flatten_last<T>(s: Seq<Seq<T>>)
    requires
        s.len() > 0,
    ensures
        s.flatten() == s.drop_last().flatten() + s.last(),
{
    s.lemma_flatten_and_flatten_alt_are_equivalent();
    s.drop_last().lemma_flatten_and_flatten_alt_are_equivalent();
}

/// The frame a grab returns, given the frames that decoding each drained
/// packet gave, in packet order: the newest frame, or `None`.
pub fn latest_frame<T>(decoded: Vec<Vec<T>>) -> (res: Option<T>)
    ensures
        res == spec_latest(views_of(decoded@)),
{
    let ghost all = views_of(decoded@);
    let mut batches = decoded;
    while batches.len() > 0
        invariant
            all == views_of(decoded@),
            spec_latest(all) == spec_latest(views_of(batches@)),
        decreases batches.len(),
    {
        let ghost before = views_of(batches@);
        let mut last = batches.pop().unwrap();
        proof {
            assert(views_of(batches@) =~= before.drop_last());
            lemma_flatten_last(before);
        }
        if last.len() > 0 {
            proof {
                let joined = views_of(batches@).flatten() + last@;
                assert(before.last() == last@);
                assert(joined.len() > 0);
                assert(joined.last() == last@.last());
            }
            return last.pop();
        }
        proof {
            assert(before.last() =~= Seq::<T>::empty());
            assert(before.flatten() =~= views_of(batches@).flatten());
        }
    }
    proof {
        assert(views_of(batches@) =~= Seq::<Seq<T>>::empty());
        assert(views_of(batches@).flatten() =~= Seq::<T>::empty());
    }
    None
}

} // verus!
