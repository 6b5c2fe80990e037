//! Saving the received packets to a fragmented MP4 file.
use crate::cstr::{c_string_bytes, is_c_compatible};
use vstd::prelude::*;
use vstd::string::StringSliceAdditionalSpecFns;

verus! {

/// The container format of saved streams.
pub const OUTPUT_FORMAT: &'static str = "mp4";

/// The `movflags` that make the MP4 file playable while it is written.
pub const MOV_FLAGS: &'static str = "frag_keyframe+empty_moov+default_base_moof";

/// Why saving a stream failed.
#[allow(clippy::enum_variant_names)]
#[derive(Debug, Clone, Copy, PartialEq, Eq, Structural)]
pub enum VideoWriterError {
    FailedToOpenFile,
    FailedToWriteFrame,
    FailedToWriteTrailer,
}

/// The path of the output as the bytes of a C string; a path holding a NUL
/// byte cannot be opened.
pub fn create_cpath(path: &str) -> (res: Result<Vec<u8>, VideoWriterError>)
    ensures
        is_c_compatible(path.spec_bytes()) ==> (res matches Ok(bytes) && bytes@
            == path.spec_bytes()),
        !is_c_compatible(path.spec_bytes()) ==> res == Err::<Vec<u8>, VideoWriterError>(
            VideoWriterError::FailedToOpenFile,
        ),
{
    match c_string_bytes(path) {
        Some(bytes) => Ok(bytes),
        None => Err(VideoWriterError::FailedToOpenFile),
    }
}

/// The result of creating the output or writing its header: any failure
/// means the file could not be opened.
pub fn output_opened<T, E>(result: Result<T, E>) -> (res: Result<T, VideoWriterError>)
    ensures
        match result {
            Ok(t) => res == Ok::<T, VideoWriterError>(t),
            Err(_) => res == Err::<T, VideoWriterError>(VideoWriterError::FailedToOpenFile),
        },
{
    match result {
        Ok(t) => Ok(t),
        Err(_) => Err(VideoWriterError::FailedToOpenFile),
    }
}

/// The result of writing one packet.
pub fn frame_written<E>(result: Result<(), E>) -> (res: Result<(), VideoWriterError>)
    ensures
        result is Ok ==> res is Ok,
        result is Err ==> res == Err::<(), VideoWriterError>(VideoWriterError::FailedToWriteFrame),
{
    match result {
        Ok(()) => Ok(()),
        Err(_) => Err(VideoWriterError::FailedToWriteFrame),
    }
}

/// The result of writing the trailer.
pub fn trailer_written<E>(result: Result<(), E>) -> (res: Result<(), VideoWriterError>)
    ensures
        result is Ok ==> res is Ok,
        result is Err ==> res == Err::<(), VideoWriterError>(
            VideoWriterError::FailedToWriteTrailer,
        ),
{
    match result {
        Ok(()) => Ok(()),
        Err(_) => Err(VideoWriterError::FailedToWriteTrailer),
    }
}

/// Where the writer thread is.
#[derive(Debug, Clone, Copy, PartialEq, Eq, Structural)]
pub enum WriterPhase {
    /// Taking packets from the capture thread and writing them.
    Writing,
    /// No more packets will be written; the trailer is due.
    Finishing,
    /// The trailer was written.
    Done,
}

/// What the writer thread does next.
#[derive(Debug, Clone, Copy, PartialEq, Eq, Structural)]
pub enum WriterAction {
    /// Wait for the next packet.
    Receive,
    /// Write the trailer, whatever becomes of it.
    WriteTrailer,
    /// End the thread.
    Exit,
}

pub open spec fn spec_writer_next(phase: WriterPhase) -> (WriterPhase, WriterAction) {
    match phase {
        WriterPhase::Writing => (phase, WriterAction::Receive),
        WriterPhase::Finishing => (WriterPhase::Done, WriterAction::WriteTrailer),
        WriterPhase::Done => (phase, WriterAction::Exit),
    }
}

pub open spec fn spec_writer_received(phase: WriterPhase, got_packet: bool) -> (WriterPhase, bool) {
    match phase {
        WriterPhase::Writing => if got_packet {
            (phase, true)
        } else {
            (WriterPhase::Finishing, false)
        },
        _ => (phase, false),
    }
}

pub open spec fn spec_writer_pushed(phase: WriterPhase, written: bool) -> WriterPhase {
    if phase == WriterPhase::Writing && !written {
        WriterPhase::Finishing
    } else {
        phase
    }
}

/// The decisions of the writer thread: write packets until the capture
/// thread hangs up or a write fails, then write the trailer once.
pub struct WriterLoop {
    phase: WriterPhase,
}

impl View for WriterLoop {
    type V = WriterPhase;

    closed spec fn view(&self) -> WriterPhase {
        self.phase
    }
}

impl WriterLoop {
    pub fn new() -> (l: Self)
        ensures
            l@ == WriterPhase::Writing,
    {
        WriterLoop { phase: WriterPhase::Writing }
    }

    pub fn phase(&self) -> (p: WriterPhase)
        ensures
            p == self@,
    {
        self.phase
    }

    /// The next thing to do.
    pub fn next_action(&mut self) -> (action: WriterAction)
        ensures
            (final(self)@, action) == spec_writer_next(old(self)@),
    {
        match self.phase {
            WriterPhase::Writing => WriterAction::Receive,
            WriterPhase::Finishing => {
                self.phase = WriterPhase::Done;
                WriterAction::WriteTrailer
            },
            WriterPhase::Done => WriterAction::Exit,
        }
    }

    /// Whether what was received is to be written: a packet is, while
    /// writing; the end of the channel ends the writing.
    pub fn on_received(&mut self, got_packet: bool) -> (write: bool)
        ensures
            (final(self)@, write) == spec_writer_received(old(self)@, got_packet),
    {
        match self.phase {
            WriterPhase::Writing => {
                if got_packet {
                    true
                } else {
                    self.phase = WriterPhase::Finishing;
                    false
                }
            },
            _ => false,
        }
    }

    /// A packet was written, or writing it failed; a failure ends the
    /// writing.
    pub fn on_pushed(&mut self, written: bool)
        ensures
            final(self)@ == spec_writer_pushed(old(self)@, written),
    {
        if !written {
            if let WriterPhase::Writing = self.phase {
                self.phase = WriterPhase::Finishing;
            }
        }
    }
}

/// After a failed write, nothing more is received: the trailer comes next,
/// and then the thread ends.
pub proof fn lemma_failed_write_finishes()
    ensures
        spec_writer_next(spec_writer_pushed(WriterPhase::Writing, false)) == (
            WriterPhase::Done,
            WriterAction::WriteTrailer,
        ),
        spec_writer_next(WriterPhase::Done) == (WriterPhase::Done, WriterAction::Exit),
{
}

/// The trailer is written at most once: once it is, the thread only exits.
pub proof fn lemma_trailer_once(phase: WriterPhase, got_packet: bool, written: bool)
    requires
        phase == WriterPhase::Done,
    ensures
        spec_writer_next(phase).1 == WriterAction::Exit,
        spec_writer_received(phase, got_packet) == (WriterPhase::Done, false),
        spec_writer_pushed(phase, written) == WriterPhase::Done,
{
}

} // verus!
