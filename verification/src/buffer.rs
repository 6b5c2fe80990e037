//! The packets waiting to be decoded: everything since the last keyframe.
use vstd::prelude::*;

verus! {

/// The packet flags that mark a keyframe.
pub const KEY_FRAME_FLAGS: i32 = 1;

/// A packet with these flags starts a new group of pictures.
pub open spec fn is_key_frame(flags: i32) -> bool {
    flags == KEY_FRAME_FLAGS
}

/// The buffered packets after a packet with `flags` arrives: a keyframe
/// replaces everything buffered, any other packet is appended.
pub open spec fn spec_after_push<P>(buffered: Seq<P>, flags: i32, packet: P) -> Seq<P> {
    if is_key_frame(flags) {
        seq![packet]
    } else {
        buffered.push(packet)
    }
}

/// The buffered packets after the packets of `arrivals` (flags and packet)
/// were pushed, in order, onto `start`.
pub open spec fn spec_after_pushes<P>(start: Seq<P>, arrivals: Seq<(i32, P)>) -> Seq<P>
    decreases arrivals.len(),
{
    if arrivals.len() == 0 {
        start
    } else {
        let last = arrivals.last();
        spec_after_push(spec_after_pushes(start, arrivals.drop_last()), last.0, last.1)
    }
}

/// The position in `arrivals` of its last keyframe, or `None`.
pub open spec fn last_key_frame<P>(arrivals: Seq<(i32, P)>) -> Option<int>
    decreases arrivals.len(),
{
    if arrivals.len() == 0 {
        None
    } else if is_key_frame(arrivals.last().0) {
        Some(arrivals.len() - 1)
    } else {
        last_key_frame(arrivals.drop_last())
    }
}

/// The packets of a sequence of arrivals.
pub open spec fn packets_of<P>(arrivals: Seq<(i32, P)>) -> Seq<P> {
    arrivals.map_values(|a: (i32, P)| a.1)
}

/// Keyframes stand only at the front: no packet after the first is one.
pub open spec fn key_frames_only_at_front(flags: Seq<i32>) -> bool {
    forall|i: int| 0 < i < flags.len() ==> !is_key_frame(#[trigger] flags[i])
}

pub open spec fn packets_in<P>(items: Seq<(i32, P)>) -> Seq<P> {
    items.map_values(|e: (i32, P)| e.1)
}

pub open spec fn flags_in<P>(items: Seq<(i32, P)>) -> Seq<i32> {
    items.map_values(|e: (i32, P)| e.0)
}

/// A queue of packets that is cut back at every keyframe, so that it
/// always holds just what a decoder needs to reach the newest picture.
pub struct PacketBuffer<P> {
    items: Vec<(i32, P)>,
}

impl<P> View for PacketBuffer<P> {
    type V = Seq<P>;

    closed spec fn view(&self) -> Seq<P> {
        packets_in(self.items@)
    }
}

impl<P> PacketBuffer<P> {
    /// The flags of the buffered packets, oldest first.
    pub closed spec fn flags(&self) -> Seq<i32> {
        flags_in(self.items@)
    }

    #[verifier::type_invariant]
    closed spec fn key_frame_leads(&self) -> bool {
        key_frames_only_at_front(flags_in(self.items@))
    }

    /// An empty buffer.
    pub fn new() -> (buffer: Self)
        ensures
            buffer@ == Seq::<P>::empty(),
            buffer.flags() == Seq::<i32>::empty(),
    {
        PacketBuffer { items: Vec::new() }
    }

    /// The number of buffered packets. Whatever was pushed and drained
    /// before, a keyframe can only be the oldest of them.
    pub fn len(&self) -> (n: usize)
        ensures
            n == self@.len(),
            n == self.flags().len(),
            key_frames_only_at_front(self.flags()),
    {
        proof {
            use_type_invariant(self);
        }
        self.items.len()
    }

    pub fn is_empty(&self) -> (empty: bool)
        ensures
            empty == (self@.len() == 0),
    {
        self.items.len() == 0
    }

    /// Buffers a packet that carries `flags`; a keyframe first discards
    /// every packet buffered before it.
    pub fn push(&mut self, flags: i32, packet: P)
        ensures
            final(self)@ == spec_after_push(old(self)@, flags, packet),
            final(self).flags() == spec_after_push(old(self).flags(), flags, flags),
            key_frames_only_at_front(final(self).flags()),
    {
        proof {
            use_type_invariant(&*self);
        }
        let ghost before = self.items@;
        let mut items: Vec<(i32, P)> = Vec::new();
        std::mem::swap(&mut items, &mut self.items);
        if flags == KEY_FRAME_FLAGS {
            items.clear();
        }
        items.push((flags, packet));
        proof {
            if !is_key_frame(flags) {
                assert(flags_in(items@) =~= flags_in(before).push(flags));
                lemma_push_keeps_key_frames_in_front(flags_in(before), flags);
            } else {
                assert(flags_in(items@) =~= seq![flags]);
            }
        }
        std::mem::swap(&mut items, &mut self.items);
        proof {
            if is_key_frame(flags) {
                assert(packets_in(self.items@) =~= seq![packet]);
                assert(flags_in(self.items@) =~= seq![flags]);
            } else {
                assert(self.items@ == before.push((flags, packet)));
                assert(packets_in(self.items@) =~= packets_in(before).push(packet));
                assert(flags_in(self.items@) =~= flags_in(before).push(flags));
            }
        }
    }

    /// Takes every buffered packet, oldest first, and leaves the buffer empty.
    pub fn drain(&mut self) -> (packets: Vec<P>)
        ensures
            packets@ == old(self)@,
            final(self)@ == Seq::<P>::empty(),
            final(self).flags() == Seq::<i32>::empty(),
    {
        let mut items: Vec<(i32, P)> = Vec::new();
        std::mem::swap(&mut items, &mut self.items);
        let ghost all = packets_in(items@);
        let n = items.len();
        let mut reversed: Vec<P> = Vec::new();
        while items.len() > 0
            invariant
                all == packets_in(old(self).items@),
                all.len() == n,
                items@.len() + reversed@.len() == n,
                packets_in(items@) =~= all.take(items@.len() as int),
                reversed@ =~= Seq::new(reversed@.len(), |j: int| all[n - 1 - j]),
            decreases items@.len(),
        {
            let ghost before = items@;
            let (_, p) = items.pop().unwrap();
            proof {
                let k = before.len() - 1;
                assert(packets_in(before)[k] == before[k].1);
                assert(all.take(before.len() as int)[k] == all[k]);
                assert(p == all[n - 1 - reversed@.len()]);
            }
            reversed.push(p);
            proof {
                assert(packets_in(items@) =~= all.take(items@.len() as int));
            }
        }
        let mut packets: Vec<P> = Vec::new();
        while reversed.len() > 0
            invariant
                all.len() == n,
                reversed@.len() + packets@.len() == n,
                reversed@ =~= Seq::new(reversed@.len(), |j: int| all[n - 1 - j]),
                packets@ =~= all.take(packets@.len() as int),
            decreases reversed@.len(),
        {
            let p = reversed.pop().unwrap();
            packets.push(p);
            proof {
                assert(reversed@ =~= Seq::new(reversed@.len(), |j: int| all[n - 1 - j]));
            }
        }
        proof {
            assert(packets_in(self.items@) =~= Seq::<P>::empty());
            assert(flags_in(self.items@) =~= Seq::<i32>::empty());
        }
        packets
    }
}

/// A push keeps keyframes at the front: a keyframe resets the buffer, any
/// other packet goes behind.
pub proof fn lemma_push_keeps_key_frames_in_front(flags: Seq<i32>, pushed: i32)
    requires
        key_frames_only_at_front(flags),
    ensures
        key_frames_only_at_front(spec_after_push(flags, pushed, pushed)),
{
    if !is_key_frame(pushed) {
        assert forall|i: int| 0 < i < flags.push(pushed).len() implies !is_key_frame(
            #[trigger] flags.push(pushed)[i],
        ) by {
            if i < flags.len() {
                assert(flags.push(pushed)[i] == flags[i]);
            }
        }
    }
}

/// After any sequence of pushes onto an empty buffer, it holds exactly the
/// packets that arrived from the last keyframe on, or all of them when none
/// was a keyframe.
pub proof fn lemma_buffer_holds_since_last_key_frame<P>(arrivals: Seq<(i32, P)>)
    ensures
        spec_after_pushes(Seq::<P>::empty(), arrivals) == match last_key_frame(arrivals) {
            Some(k) => packets_of(arrivals.subrange(k, arrivals.len() as int)),
            None => packets_of(arrivals),
        },
        last_key_frame(arrivals) matches Some(k) ==> 0 <= k < arrivals.len() && is_key_frame(
            arrivals[k].0,
        ),
    decreases arrivals.len(),
{
    if arrivals.len() > 0 {
        let init = arrivals.drop_last();
        let last = arrivals.last();
        lemma_buffer_holds_since_last_key_frame(init);
        if is_key_frame(last.0) {
            assert(packets_of(arrivals.subrange(arrivals.len() - 1, arrivals.len() as int))
                =~= seq![last.1]);
        } else {
            match last_key_frame(init) {
                Some(k) => {
                    assert(arrivals.subrange(k, arrivals.len() as int) =~= init.subrange(
                        k,
                        init.len() as int,
                    ).push(last));
                    assert(packets_of(arrivals.subrange(k, arrivals.len() as int)) =~= packets_of(
                        init.subrange(k, init.len() as int),
                    ).push(last.1));
                },
                None => {
                    assert(arrivals =~= init.push(last));
                    assert(packets_of(arrivals) =~= packets_of(init).push(last.1));
                },
            }
        }
    } else {
        assert(packets_of(arrivals) =~= Seq::<P>::empty());
    }
}

/// Whatever was buffered, a keyframe leaves the buffer holding that
/// keyframe alone.
pub proof fn lemma_key_frame_resets<P>(buffered: Seq<P>, packet: P)
    ensures
        spec_after_push(buffered, KEY_FRAME_FLAGS, packet) == seq![packet],
{
}

} // verus!
