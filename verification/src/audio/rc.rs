//! Shared ownership of a sound buffer.
//!
//! A sound refers to the buffer that it plays and does not copy it, so the
//! buffer has to outlive every sound that plays it. A `SharedBuffer` counts
//! those who hold the buffer and asks for its destruction when the last of
//! them lets go.

use crate::audio::sound_buffer::SoundBuffer;
use crate::ffi::audio::sound_buffer::{sfSoundBuffer, SoundBufferCall};
use vstd::prelude::*;

verus! {

/// What a `SharedBuffer` stands for: a buffer and the number of its holders.
pub struct Sharing {
    /// The handle of the buffer, for as long as it has not been given up.
    pub buffer: Option<sfSoundBuffer>,
    /// The number of those who hold the buffer.
    pub holders: nat,
}

/// What a holder can do to a shared buffer.
pub enum SharingStep {
    /// One more holder takes hold of the buffer.
    Share,
    /// One holder lets go of the buffer.
    Release,
}

impl Sharing {
    /// The buffer is there exactly as long as someone holds it.
    pub open spec fn valid(self) -> bool {
        &&& self.holders <= usize::MAX
        &&& self.holders == 0 <==> self.buffer is None
    }

    /// Whether the buffer has not been given up.
    pub open spec fn alive(self) -> bool {
        self.buffer is Some
    }

    /// Whether one more holder can take hold of the buffer: it is alive, and
    /// the count of its holders can still grow.
    pub open spec fn can_share(self) -> bool {
        0 < self.holders < usize::MAX
    }

    /// The sharing after one more holder has tried to take hold.
    pub open spec fn share(self) -> Sharing {
        if self.can_share() {
            Sharing { buffer: self.buffer, holders: self.holders + 1 }
        } else {
            self
        }
    }

    /// The sharing after one holder has let go.
    pub open spec fn release(self) -> Sharing {
        if self.holders > 1 {
            Sharing { buffer: self.buffer, holders: (self.holders - 1) as nat }
        } else {
            Sharing { buffer: None, holders: 0 }
        }
    }

    /// The call that is due when one holder lets go: the destruction of the
    /// buffer if it is the last holder, and none otherwise.
    pub open spec fn release_call(self) -> Option<SoundBufferCall<'static>> {
        if self.holders == 1 && self.buffer is Some {
            Some(SoundBufferCall::Destroy { soundBuffer: self.buffer.unwrap() })
        } else {
            None
        }
    }

    /// The sharing after one step.
    pub open spec fn step(self, step: SharingStep) -> Sharing {
        match step {
            SharingStep::Share => self.share(),
            SharingStep::Release => self.release(),
        }
    }

    /// The sharing after the steps, taken in order.
    pub open spec fn after(self, steps: Seq<SharingStep>) -> Sharing
        decreases steps.len(),
    {
        if steps.len() == 0 {
            self
        } else {
            self.after(steps.drop_last()).step(steps.last())
        }
    }

    /// The number of times that the steps, taken in order, ask for the
    /// destruction of the buffer.
    pub open spec fn destructions(self, steps: Seq<SharingStep>) -> nat
        decreases steps.len(),
    {
        if steps.len() == 0 {
            0
        } else {
            let before = self.after(steps.drop_last());
            let asked: nat = if steps.last() is Release && before.release_call() is Some {
                1
            } else {
                0
            };
            self.destructions(steps.drop_last()) + asked
        }
    }
}

/// Whatever the holders of a buffer do and in whatever order, the buffer
/// stays the same buffer for as long as one of them holds it, and until then
/// its destruction is not asked for. Once the last holder has let go, its
/// destruction has been asked for exactly once, and is never asked for again.
pub proof fn destroyed_exactly_once(sharing: Sharing, steps: Seq<SharingStep>)
    requires
        sharing.valid(),
        sharing.alive(),
    ensures
        sharing.after(steps).valid(),
        sharing.after(steps).alive() ==> sharing.after(steps).buffer == sharing.buffer
            && sharing.destructions(steps) == 0,
        !sharing.after(steps).alive() ==> sharing.destructions(steps) == 1,
    decreases steps.len(),
{
    if steps.len() > 0 {
        destroyed_exactly_once(sharing, steps.drop_last());
    }
}

/// A buffer that two hold is still there when the first of them has let go,
/// and its destruction is asked for when the second has.
pub proof fn shared_by_two_until_both_let_go(sharing: Sharing)
    requires
        sharing.valid(),
        sharing.holders == 2,
    ensures
        sharing.release_call() is None,
        sharing.release().alive(),
        sharing.release().buffer == sharing.buffer,
        sharing.release().release_call() == Some(
            SoundBufferCall::Destroy { soundBuffer: sharing.buffer.unwrap() },
        ),
        !sharing.release().release().alive(),
{
}

/// A buffer outlives all of its holders but the last: after fewer of them
/// have let go than there are, it is still the same buffer, held by the rest.
pub proof fn outlives_all_but_the_last(sharing: Sharing, gone: nat)
    requires
        sharing.valid(),
        gone < sharing.holders,
    ensures
        sharing.after(Seq::new(gone, |i: int| SharingStep::Release)) == (Sharing {
            buffer: sharing.buffer,
            holders: (sharing.holders - gone) as nat,
        }),
    decreases gone,
{
    let steps = Seq::new(gone, |i: int| SharingStep::Release);
    if gone > 0 {
        let fewer = Seq::new((gone - 1) as nat, |i: int| SharingStep::Release);
        outlives_all_but_the_last(sharing, (gone - 1) as nat);
        assert(steps.drop_last() =~= fewer);
    }
}

/// A buffer together with the count of its holders.
struct Share {
    buffer: SoundBuffer,
    holders: usize,
}

/// A sound buffer that several hold at once.
///
/// Whoever makes the `SharedBuffer` is its first holder. Each further holder
/// takes hold with `share` and each holder lets go with `release`, once. The
/// last `release` gives the call that destroys the buffer.
pub struct SharedBuffer {
    share: Option<Share>,
}

impl View for SharedBuffer {
    type V = Sharing;

    closed spec fn view(&self) -> Sharing {
        match self.share {
            Some(share) => Sharing { buffer: Some(share.buffer@), holders: share.holders as nat },
            None => Sharing { buffer: None, holders: 0 },
        }
    }
}

impl SharedBuffer {
    #[verifier::type_invariant]
    spec fn held_while_there(&self) -> bool {
        self.share matches Some(share) ==> share.holders >= 1
    }

    /// Makes `buffer` a shared buffer, held by the caller alone.
    pub fn new(buffer: SoundBuffer) -> (shared: SharedBuffer)
        ensures
            shared@ == (Sharing { buffer: Some(buffer@), holders: 1 }),
            shared@.valid(),
    {
        SharedBuffer { share: Some(Share { buffer: buffer, holders: 1 }) }
    }

    /// One more holder takes hold of the buffer. Returns whether it could:
    /// a buffer that has been given up cannot be held again.
    pub fn share(&mut self) -> (shared: bool)
        ensures
            final(self)@ == old(self)@.share(),
            shared == old(self)@.can_share(),
            final(self)@.valid(),
    {
        proof {
            use_type_invariant(&*self);
        }
        let mut held: Option<Share> = None;
        std::mem::swap(&mut held, &mut self.share);
        match held {
            Some(share) => {
                if share.holders < usize::MAX {
                    self.share = Some(Share { buffer: share.buffer, holders: share.holders + 1 });
                    true
                } else {
                    self.share = Some(share);
                    false
                }
            },
            None => false,
        }
    }

    /// One holder lets go of the buffer. If it was the last, the buffer is
    /// given up: the call that destroys it is returned, and from then on
    /// nobody can take hold of it and no further call is returned.
    pub fn release(&mut self) -> (call: Option<SoundBufferCall<'static>>)
        ensures
            final(self)@ == old(self)@.release(),
            call == old(self)@.release_call(),
            final(self)@.valid(),
    {
        proof {
            use_type_invariant(&*self);
        }
        let mut held: Option<Share> = None;
        std::mem::swap(&mut held, &mut self.share);
        match held {
            Some(share) => {
                if share.holders > 1 {
                    self.share = Some(Share { buffer: share.buffer, holders: share.holders - 1 });
                    None
                } else {
                    Some(share.buffer.destroy())
                }
            },
            None => None,
        }
    }

    /// The buffer, for as long as someone holds it.
    pub fn buffer(&self) -> (buffer: Option<&SoundBuffer>)
        ensures
            match buffer {
                Some(held) => self@.buffer == Some(held@),
                None => self@.buffer is None,
            },
    {
        match &self.share {
            Some(share) => Some(&share.buffer),
            None => None,
        }
    }

    /// The number of those who hold the buffer.
    pub fn holders(&self) -> (holders: usize)
        ensures
            holders == self@.holders,
            self@.valid(),
    {
        proof {
            use_type_invariant(self);
        }
        match &self.share {
            Some(share) => share.holders,
            None => 0,
        }
    }
}

} // verus!
