//! The capture thread: wait for a keyframe, then hand every packet on until
//! the connection is closed or the input gives out.
use crate::buffer::{is_key_frame, KEY_FRAME_FLAGS};
use vstd::prelude::*;

verus! {

/// Where the capture thread is.
#[derive(Debug, Clone, Copy, PartialEq, Eq, Structural)]
pub enum CapturePhase {
    /// No keyframe seen yet: packets are dropped, the closed flag is not read.
    AwaitingKeyFrame,
    /// Every packet is handed on, until the connection is closed.
    Forwarding,
    /// Finished: the connection is to be marked closed.
    Stopped,
}

/// What the capture thread does next.
#[derive(Debug, Clone, Copy, PartialEq, Eq, Structural)]
pub enum LoopAction {
    /// Read the next packet of the video stream.
    Receive,
    /// Mark the connection closed and end the thread.
    Stop,
}

/// One thing that happens to the capture thread.
#[derive(Debug, Clone, Copy, PartialEq, Eq, Structural)]
pub enum LoopInput {
    /// It looks at the closed flag, which holds this value.
    Check(bool),
    /// It receives a packet with these flags.
    Packet(i32),
    /// Receiving gives no packet (end of input or a read error).
    End,
}

pub open spec fn spec_next_action(phase: CapturePhase, closed: bool) -> (CapturePhase, LoopAction) {
    match phase {
        CapturePhase::AwaitingKeyFrame => (phase, LoopAction::Receive),
        CapturePhase::Forwarding => if closed {
            (CapturePhase::Stopped, LoopAction::Stop)
        } else {
            (phase, LoopAction::Receive)
        },
        CapturePhase::Stopped => (phase, LoopAction::Stop),
    }
}

pub open spec fn spec_on_packet(phase: CapturePhase, flags: i32) -> (CapturePhase, bool) {
    match phase {
        CapturePhase::AwaitingKeyFrame => if is_key_frame(flags) {
            (CapturePhase::Forwarding, true)
        } else {
            (phase, false)
        },
        CapturePhase::Forwarding => (phase, true),
        CapturePhase::Stopped => (phase, false),
    }
}

pub open spec fn spec_on_end(phase: CapturePhase) -> CapturePhase {
    match phase {
        CapturePhase::AwaitingKeyFrame => CapturePhase::Forwarding,
        CapturePhase::Forwarding => CapturePhase::Stopped,
        CapturePhase::Stopped => CapturePhase::Stopped,
    }
}

/// One input applied to a phase: the next phase and the flags of the packet
/// handed on, if one was.
pub open spec fn spec_step(phase: CapturePhase, input: LoopInput) -> (CapturePhase, Seq<i32>) {
    match input {
        LoopInput::Check(closed) => (spec_next_action(phase, closed).0, Seq::empty()),
        LoopInput::Packet(flags) => {
            let (next, forward) = spec_on_packet(phase, flags);
            (next, if forward {
                seq![flags]
            } else {
                Seq::empty()
            })
        },
        LoopInput::End => (spec_on_end(phase), Seq::empty()),
    }
}

/// A run of inputs from `phase`: the final phase and the flags of every
/// packet handed on, in order.
pub open spec fn spec_run(phase: CapturePhase, inputs: Seq<LoopInput>) -> (CapturePhase, Seq<i32>)
    decreases inputs.len(),
{
    if inputs.len() == 0 {
        (phase, Seq::empty())
    } else {
        let (next, out) = spec_step(phase, inputs[0]);
        let (last, rest) = spec_run(next, inputs.drop_first());
        (last, out + rest)
    }
}

/// The decisions of the capture thread.
pub struct CaptureLoop {
    phase: CapturePhase,
}

impl View for CaptureLoop {
    type V = CapturePhase;

    closed spec fn view(&self) -> CapturePhase {
        self.phase
    }
}

impl CaptureLoop {
    /// A thread that has seen no packet yet.
    pub fn new() -> (l: Self)
        ensures
            l@ == CapturePhase::AwaitingKeyFrame,
    {
        CaptureLoop { phase: CapturePhase::AwaitingKeyFrame }
    }

    pub fn phase(&self) -> (p: CapturePhase)
        ensures
            p == self@,
    {
        self.phase
    }

    /// What to do before each read, given the closed flag: until the first
    /// keyframe the thread reads without looking at the flag; afterwards a
    /// closed connection stops it.
    pub fn next_action(&mut self, closed: bool) -> (action: LoopAction)
        ensures
            (final(self)@, action) == spec_next_action(old(self)@, closed),
    {
        match self.phase {
            CapturePhase::AwaitingKeyFrame => LoopAction::Receive,
            CapturePhase::Forwarding => {
                if closed {
                    self.phase = CapturePhase::Stopped;
                    LoopAction::Stop
                } else {
                    LoopAction::Receive
                }
            },
            CapturePhase::Stopped => LoopAction::Stop,
        }
    }

    /// Whether a received packet with `flags` is handed on (to the buffer
    /// and the writer): packets before the first keyframe are dropped.
    pub fn on_packet(&mut self, flags: i32) -> (forward: bool)
        ensures
            (final(self)@, forward) == spec_on_packet(old(self)@, flags),
    {
        match self.phase {
            CapturePhase::AwaitingKeyFrame => {
                if flags == KEY_FRAME_FLAGS {
                    self.phase = CapturePhase::Forwarding;
                    true
                } else {
                    false
                }
            },
            CapturePhase::Forwarding => true,
            CapturePhase::Stopped => false,
        }
    }

    /// Receiving gave no packet. Before the first keyframe this only ends
    /// the wait; afterwards it ends the thread.
    pub fn on_receive_end(&mut self)
        ensures
            final(self)@ == spec_on_end(old(self)@),
    {
        self.phase = match self.phase {
            CapturePhase::AwaitingKeyFrame => CapturePhase::Forwarding,
            CapturePhase::Forwarding => CapturePhase::Stopped,
            CapturePhase::Stopped => CapturePhase::Stopped,
        };
    }

}

/// Whether the connection is to be marked closed after handing a packet to
/// the writer: it is when the writer is gone.
pub fn closes_after_send(sent: bool) -> (close: bool)
    ensures
        close == !sent,
{
    !sent
}

/// An input ends only after a keyframe has come before it.
pub open spec fn ends_after_key_frame(inputs: Seq<LoopInput>) -> bool {
    forall|i: int|
        0 <= i < inputs.len() && inputs[i] == LoopInput::End ==> exists|j: int|
            0 <= j < i && #[trigger] inputs[j] == LoopInput::Packet(KEY_FRAME_FLAGS)
}

/// From a fresh thread, the first packet handed on is a keyframe, as long
/// as the input does not end before one arrives.
pub proof fn lemma_first_forwarded_is_key_frame(inputs: Seq<LoopInput>)
    requires
        ends_after_key_frame(inputs),
    ensures
        spec_run(CapturePhase::AwaitingKeyFrame, inputs).1.len() > 0 ==> is_key_frame(
            spec_run(CapturePhase::AwaitingKeyFrame, inputs).1[0],
        ),
    decreases inputs.len(),
{
    if inputs.len() > 0 {
        let first = inputs[0];
        let rest = inputs.drop_first();
        let (next, out) = spec_step(CapturePhase::AwaitingKeyFrame, first);
        if first == LoopInput::End {
            assert(inputs[0] == LoopInput::End);
        } else if next == CapturePhase::AwaitingKeyFrame {
            assert(out.len() == 0);
            assert forall|i: int|
                0 <= i < rest.len() && rest[i] == LoopInput::End implies exists|j: int|
                0 <= j < i && #[trigger] rest[j] == LoopInput::Packet(KEY_FRAME_FLAGS) by {
                assert(inputs[i + 1] == LoopInput::End);
                let j = choose|j: int|
                    0 <= j < i + 1 && #[trigger] inputs[j] == LoopInput::Packet(KEY_FRAME_FLAGS);
                assert(j != 0);
                assert(rest[j - 1] == inputs[j]);
            }
            lemma_first_forwarded_is_key_frame(rest);
            assert(out + spec_run(next, rest).1 =~= spec_run(next, rest).1);
        } else {
            assert(out == seq![KEY_FRAME_FLAGS]);
        }
    }
}

/// A stopped thread stays stopped and hands nothing on, whatever happens.
pub proof fn lemma_stopped_is_final(inputs: Seq<LoopInput>)
    ensures
        spec_run(CapturePhase::Stopped, inputs) == (CapturePhase::Stopped, Seq::<i32>::empty()),
    decreases inputs.len(),
{
    if inputs.len() > 0 {
        lemma_stopped_is_final(inputs.drop_first());
        let (next, out) = spec_step(CapturePhase::Stopped, inputs[0]);
        assert(out + Seq::<i32>::empty() =~= Seq::<i32>::empty());
    }
}

/// Once forwarding, every packet received before the connection is seen
/// closed or the input ends is handed on, in order.
pub proof fn lemma_forwarding_hands_on_everything(flags: Seq<i32>)
    ensures
        spec_run(CapturePhase::Forwarding, flags.map_values(|f: i32| LoopInput::Packet(f)))
            == (CapturePhase::Forwarding, flags),
    decreases flags.len(),
{
    let inputs = flags.map_values(|f: i32| LoopInput::Packet(f));
    if flags.len() > 0 {
        let rest = flags.drop_first();
        assert(inputs.drop_first() =~= rest.map_values(|f: i32| LoopInput::Packet(f)));
        lemma_forwarding_hands_on_everything(rest);
        assert(seq![flags[0]] + rest =~= flags);
    } else {
        assert(flags =~= Seq::<i32>::empty());
    }
}

} // verus!
