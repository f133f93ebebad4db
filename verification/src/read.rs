//! One attempt to read an event from the radio.
//!
//! The readiness line is sampled first; while it is low the bus is left
//! alone. With the line high the host asks for a chance to read, and pulls
//! what the radio has into the ring buffer, one contiguous window after the
//! other. However the pull went, the next whole frame in the buffer, if
//! there is one, then goes to the decoder.

use core::marker::PhantomData;
use vstd::prelude::*;
use crate::cb::{lesser, slot, Buffer};
use crate::event::{
    combined, frame_fits, frame_len, frame_ready, read_outcome, take_next_frame, PARAM_LEN_BYTE,
};
use crate::handshake::{
    is_ready, parse_spi_header, read_capacity, read_request, request, HEADER_LEN,
    READ_REQUEST,
};
use crate::transfer::{may_follow, transfer_len, zeros, Phase, Reply, Step};
use crate::{Error, Pending};

verus! {

/// Where a read goes once the bus is out of the way: to the decoder if the
/// buffer starts with a whole frame, else to its end.
pub open spec fn settled(held: Seq<u8>, header_len: int) -> Phase {
    if frame_ready(held, header_len) {
        Phase::Decoding
    } else {
        Phase::Finished
    }
}

/// Where a read goes when the radio still has `budget` bytes: to another
/// transfer while both the budget and the room before the buffer wraps last,
/// else to the release.
pub open spec fn pulled_on(budget: int, contiguous: int) -> Phase {
    if lesser(budget, contiguous) > 0 {
        Phase::Receiving
    } else {
        Phase::Releasing
    }
}

/// The number of bytes the radio still has for this read, as `reply` in
/// `phase` leaves it: the read capacity of a handshake reply, else what
/// remained before.
pub open spec fn read_budget<T, E, VE>(
    phase: Phase,
    remaining: int,
    reply: Reply<T, E, VE>,
) -> int {
    match reply {
        Reply::Exchanged(header) => if phase is Exchanging {
            read_capacity(header@)
        } else {
            remaining
        },
        _ => remaining,
    }
}

/// The phase a read transaction enters from `phase` on `reply`, given what
/// the ring buffer holds and how much room it has before it wraps.
pub open spec fn read_successor<T, E, VE>(
    phase: Phase,
    reply: Reply<T, E, VE>,
    remaining: int,
    contiguous: int,
    held: Seq<u8>,
    header_len: int,
) -> Phase {
    match phase {
        Phase::Sampling => match reply {
            Reply::Line(ready) => if ready {
                Phase::Selecting
            } else {
                settled(held, header_len)
            },
            Reply::Fault(_) => settled(held, header_len),
            _ => Phase::Finished,
        },
        Phase::Selecting => if reply is Done {
            Phase::Exchanging
        } else {
            Phase::Releasing
        },
        Phase::Exchanging => match reply {
            Reply::Exchanged(header) => if is_ready(header@) {
                pulled_on(read_capacity(header@), contiguous)
            } else {
                Phase::Releasing
            },
            _ => Phase::Releasing,
        },
        Phase::Receiving => if reply is Done {
            pulled_on(remaining, contiguous)
        } else {
            Phase::Releasing
        },
        Phase::Releasing => settled(held, header_len),
        Phase::Decoding => Phase::Finished,
        Phase::Finished => Phase::Finished,
        _ => Phase::Releasing,
    }
}

/// How the pull from the radio went, as `reply` tells when it makes the read
/// release the bus: it failed if a transfer did, it went through if the
/// radio was ready and has nothing more or the buffer has no more room, and
/// in every other case it was not ready.
pub open spec fn pull_result<T, E, VE>(phase: Phase, reply: Reply<T, E, VE>) -> Result<
    (),
    Pending<E>,
> {
    match reply {
        Reply::Done => if phase is Receiving {
            Ok(())
        } else {
            Err(Pending::NotReady)
        },
        Reply::Exchanged(header) => if phase is Exchanging && is_ready(header@) {
            Ok(())
        } else {
            Err(Pending::NotReady)
        },
        Reply::Fault(e) => if phase is Exchanging || phase is Receiving {
            Err(Pending::Failed(e))
        } else {
            Err(Pending::NotReady)
        },
        _ => Err(Pending::NotReady),
    }
}

/// The result of a read that ends on `reply` in `phase`. After a decoder's
/// verdict that verdict decides. With no frame to decode the pull decides:
/// its failure, or not ready.
pub open spec fn read_result<T, E, VE>(
    phase: Phase,
    pulled: Result<(), Pending<E>>,
    reply: Reply<T, E, VE>,
) -> Result<T, Pending<Error<E, VE>>> {
    match phase {
        Phase::Sampling => match reply {
            Reply::Fault(e) => combined(Err(Pending::Failed(e)), None),
            _ => Err(Pending::NotReady),
        },
        Phase::Releasing => combined(pulled, None),
        Phase::Decoding => match reply {
            Reply::Decoded(verdict) => combined(Ok(()), Some(verdict)),
            _ => Err(Pending::NotReady),
        },
        _ => Err(Pending::NotReady),
    }
}

/// Whether a read in `phase` looks for a frame in the ring buffer on `reply`:
/// it does once the bus is released, and at once when the readiness line is
/// low or could not be sampled. Until then it only pulls.
pub open spec fn looks_for_frame<T, E, VE>(phase: Phase, reply: Reply<T, E, VE>) -> bool {
    match phase {
        Phase::Releasing => true,
        Phase::Sampling => match reply {
            Reply::Line(ready) => !ready,
            Reply::Fault(_) => true,
            _ => false,
        },
        _ => false,
    }
}

/// One attempt to read an event: pull what the radio has into the ring
/// buffer, then take the next whole frame out of it, if there is one.
pub struct ReadTransaction<T, E, VE> {
    phase: Phase,
    header_len: usize,
    remaining: usize,
    pulled: Result<(), Pending<E>>,
    _event: PhantomData<(T, VE)>,
}

impl<T, E, VE> ReadTransaction<T, E, VE> {
    #[verifier::type_invariant]
    spec fn in_a_phase_of_reading(&self) -> bool {
        &&& self.header_len > PARAM_LEN_BYTE
        &&& !(self.phase is SendingHeader)
        &&& !(self.phase is SendingPayload)
    }

    /// The step the transaction waits on.
    pub closed spec fn phase(&self) -> Phase {
        self.phase
    }

    /// The length of a frame's header.
    pub closed spec fn header_len(&self) -> int {
        self.header_len as int
    }

    /// The number of bytes the radio still has for this read.
    pub closed spec fn remaining(&self) -> int {
        self.remaining as int
    }

    /// How the pull went; set on entering `Releasing`.
    pub closed spec fn pulled(&self) -> Result<(), Pending<E>> {
        self.pulled
    }

    /// Tells whether the transaction looks for a frame in the ring buffer on
    /// `reply`; only then must the frame at the front of the buffer fit the
    /// scratch area.
    pub fn looks_for_frame(&self, reply: &Reply<T, E, VE>) -> (looks: bool)
        ensures
            looks == looks_for_frame(self.phase(), *reply),
    {
        match self.phase {
            Phase::Releasing => true,
            Phase::Sampling => match reply {
                Reply::Line(ready) => !*ready,
                Reply::Fault(_) => true,
                _ => false,
            },
            _ => false,
        }
    }

    /// Starts a read of frames whose header is `header_len` bytes long. The
    /// first step is to sample the readiness line.
    pub fn begin<'a>(header_len: usize) -> (started: (Self, Step<'a, T, E, VE>))
        requires
            header_len > PARAM_LEN_BYTE,
        ensures
            started.0.phase() == Phase::Sampling,
            started.0.header_len() == header_len,
            started.1 is Sample,
    {
        (
            ReadTransaction {
                phase: Phase::Sampling,
                header_len,
                remaining: 0,
                pulled: Err(Pending::NotReady),
                _event: PhantomData,
            },
            Step::Sample,
        )
    }

    /// The step the transaction waits on.
    pub fn current_phase(&self) -> (phase: Phase)
        ensures
            phase == self.phase(),
    {
        self.phase
    }

    fn finish<'a>(&mut self, result: Result<T, Pending<Error<E, VE>>>) -> (step: Step<
        'a,
        T,
        E,
        VE,
    >)
        ensures
            final(self).phase() == Phase::Finished,
            final(self).header_len() == old(self).header_len(),
            step == Step::<T, E, VE>::Finished(result),
    {
        proof {
            use_type_invariant(&*self);
        }
        self.phase = Phase::Finished;
        Step::Finished(result)
    }

    fn release<'a>(&mut self, pulled: Result<(), Pending<E>>) -> (step: Step<'a, T, E, VE>)
        ensures
            final(self).phase() == Phase::Releasing,
            final(self).pulled() == pulled,
            final(self).header_len() == old(self).header_len(),
            step is Release,
    {
        proof {
            use_type_invariant(&*self);
        }
        self.phase = Phase::Releasing;
        self.pulled = pulled;
        Step::Release
    }

    /// Takes the next frame if all of it is there, else ends the read with
    /// what the pull gave.
    fn settle<'a>(&mut self, rx: &'a mut Buffer<'_>, pulled: Result<(), Pending<E>>) -> (step:
        Step<'a, T, E, VE>)
        requires
            frame_fits(old(rx)@, old(self).header_len()),
        ensures
            final(rx).capacity() == old(rx).capacity(),
            final(self).header_len() == old(self).header_len(),
            final(self).phase() == settled(old(rx)@, old(self).header_len()),
            final(self).phase().awaits(step),
            step matches Step::Finished(result) ==> result == combined::<T, E, VE>(pulled, None)
                && final(rx)@ == old(rx)@ && final(rx).read_index() == old(rx).read_index(),
            step matches Step::Decode(frame) ==> {
                let n = frame_len(old(rx)@, old(self).header_len());
                &&& frame@ == old(rx)@.subrange(0, n)
                &&& final(rx)@ == old(rx)@.subrange(n, old(rx)@.len() as int)
                &&& final(rx).read_index() == slot(
                    old(rx).capacity() as int,
                    old(rx).read_index() as int,
                    n,
                )
            },
    {
        proof {
            use_type_invariant(&*self);
        }
        match take_next_frame(rx, self.header_len) {
            Some(frame) => {
                self.phase = Phase::Decoding;
                Step::Decode(frame)
            },
            None => self.finish(read_outcome(pulled, None)),
        }
    }

    /// Lends the next window, or ends the pull when the radio has nothing
    /// left or the buffer has no room before it wraps.
    fn pull<'a>(&mut self, rx: &'a mut Buffer<'_>, budget: usize) -> (step: Step<
        'a,
        T,
        E,
        VE,
    >)
        ensures
            final(rx).capacity() == old(rx).capacity(),
            final(self).header_len() == old(self).header_len(),
            final(self).phase() == pulled_on(budget as int, old(rx).contiguous_free() as int),
            final(self).phase().awaits(step),
            final(self).phase() is Releasing ==> final(self).pulled() == Ok::<(), Pending<E>>(())
                && final(rx)@ == old(rx)@ && final(rx).read_index() == old(rx).read_index(),
            step matches Step::Receive(window) ==> {
                let n = lesser(budget as int, old(rx).contiguous_free() as int);
                &&& window@ == zeros(n)
                &&& final(window)@.len() == n
                &&& final(rx)@ == old(rx)@ + final(window)@
                &&& final(rx).read_index() == old(rx).read_index()
                &&& final(self).remaining() == budget - n
            },
    {
        proof {
            use_type_invariant(&*self);
        }
        let n = transfer_len(budget, rx.next_contiguous_slice_len());
        if n == 0 {
            self.release(Ok(()))
        } else {
            self.remaining = budget - n;
            self.phase = Phase::Receiving;
            let window = rx.next_mut_slice(n);
            zero_fill(window);
            Step::Receive(window)
        }
    }

    /// Takes the caller's reply to the pending step and gives the next step.
    ///
    /// The readiness line is sampled first. While it is low there is nothing
    /// to pull, and neither chip-select nor the bus is touched. With the line
    /// high chip-select is driven low and the handshake header is exchanged;
    /// then, while the radio has bytes left and the ring buffer has room
    /// before it wraps, one zeroed window after the other is handed out to be
    /// filled. Whether the radio was ready or not and whether a transfer
    /// failed or not, chip-select is then released. After that the next
    /// whole frame in the buffer, if there is one, goes to the decoder, and
    /// the decoder's verdict is the result. With no whole frame the result is
    /// the failure of the pull, or not ready.
    ///
    /// The pull asks nothing of what the buffer holds. Only a reply on which
    /// the read looks for a frame needs the frame at the front of the buffer,
    /// if it is whole, to fit the scratch area.
    pub fn advance<'a>(&mut self, rx: &'a mut Buffer<'_>, reply: Reply<T, E, VE>) -> (step:
        Step<'a, T, E, VE>)
        requires
            looks_for_frame(old(self).phase(), reply) ==> frame_fits(
                old(rx)@,
                old(self).header_len(),
            ),
        ensures
            final(rx).capacity() == old(rx).capacity(),
            final(self).header_len() == old(self).header_len(),
            final(self).phase() == read_successor(
                old(self).phase(),
                reply,
                old(self).remaining(),
                old(rx).contiguous_free() as int,
                old(rx)@,
                old(self).header_len(),
            ),
            may_follow(old(self).phase(), final(self).phase()),
            final(self).phase().awaits(step),
            final(self).phase() is Releasing ==> final(self).pulled() == pull_result(
                old(self).phase(),
                reply,
            ),
            step matches Step::Exchange(request_header) ==> request_header@ == request(
                READ_REQUEST,
            ),
            step matches Step::Receive(window) ==> {
                let budget = read_budget(old(self).phase(), old(self).remaining(), reply);
                let n = lesser(budget, old(rx).contiguous_free() as int);
                &&& window@ == zeros(n)
                &&& final(window)@.len() == n
                &&& final(rx)@ == old(rx)@ + final(window)@
                &&& final(rx).read_index() == old(rx).read_index()
                &&& final(self).remaining() == budget - n
            },
            step matches Step::Decode(frame) ==> {
                let n = frame_len(old(rx)@, old(self).header_len());
                &&& frame@ == old(rx)@.subrange(0, n)
                &&& final(rx)@ == old(rx)@.subrange(n, old(rx)@.len() as int)
                &&& final(rx).read_index() == slot(
                    old(rx).capacity() as int,
                    old(rx).read_index() as int,
                    n,
                )
            },
            !(step is Receive) && !(step is Decode) ==> final(rx)@ == old(rx)@
                && final(rx).read_index() == old(rx).read_index(),
            step matches Step::Finished(result) ==> result == read_result(
                old(self).phase(),
                old(self).pulled(),
                reply,
            ),
    {
        proof {
            use_type_invariant(&*self);
        }
        match self.phase {
            Phase::Sampling => match reply {
                Reply::Line(ready) => {
                    if ready {
                        self.phase = Phase::Selecting;
                        Step::Select
                    } else {
                        self.settle(rx, Err(Pending::NotReady))
                    }
                },
                Reply::Fault(e) => self.settle(rx, Err(Pending::Failed(e))),
                _ => self.finish(Err(Pending::NotReady)),
            },
            Phase::Selecting => match reply {
                Reply::Done => {
                    self.phase = Phase::Exchanging;
                    Step::Exchange(read_request())
                },
                _ => self.release(Err(Pending::NotReady)),
            },
            Phase::Exchanging => match reply {
                Reply::Exchanged(header) => match parse_spi_header::<E>(&header) {
                    Ok((_, read_len)) => self.pull(rx, read_len as usize),
                    Err(not_ready) => self.release(Err(not_ready)),
                },
                Reply::Fault(e) => self.release(Err(Pending::Failed(e))),
                _ => self.release(Err(Pending::NotReady)),
            },
            Phase::Receiving => match reply {
                Reply::Done => {
                    let budget = self.remaining;
                    self.pull(rx, budget)
                },
                Reply::Fault(e) => self.release(Err(Pending::Failed(e))),
                _ => self.release(Err(Pending::NotReady)),
            },
            Phase::Releasing => {
                let mut pulled = Err(Pending::NotReady);
                core::mem::swap(&mut self.pulled, &mut pulled);
                self.settle(rx, pulled)
            },
            Phase::Decoding => match reply {
                Reply::Decoded(verdict) => self.finish(read_outcome(Ok(()), Some(verdict))),
                _ => self.finish(Err(Pending::NotReady)),
            },
            Phase::Finished => Step::Finished(Err(Pending::NotReady)),
            _ => self.release(Err(Pending::NotReady)),
        }
    }
}

fn zero_fill(window: &mut [u8])
    ensures
        final(window)@ == zeros(old(window)@.len() as int),
{
    let n = window.len();
    let mut i: usize = 0;
    while i < n
        invariant
            window@.len() == n,
            i <= n,
            forall|j: int| 0 <= j < i ==> window@[j] == 0u8,
        decreases n - i,
    {
        window[i] = 0;
        i += 1;
    }
    assert(window@ =~= zeros(n as int));
}

/// No window of a pull reaches past the room before the buffer wraps, nor
/// past what the radio still has, and none is empty. Here `before` is the
/// buffer when a window is due and `budget` what the radio still has.
pub proof fn lemma_window_stays_within_the_room(budget: int, before: Buffer)
    requires
        before.wf(),
        pulled_on(budget, before.contiguous_free() as int) is Receiving,
    ensures
        1 <= lesser(budget, before.contiguous_free() as int) <= budget,
        lesser(budget, before.contiguous_free() as int) <= before.contiguous_free(),
        before.contiguous_free() <= before.free_len(),
        before@.len() + lesser(budget, before.contiguous_free() as int) <= before.capacity(),
{
    before.lemma_bounds();
}

/// A pull takes at most two windows, and all it takes in is no more than the
/// buffer had free and no more than the radio had: after a first window and
/// a second one, either the radio has nothing left or the buffer is full, and
/// the pull goes on to the release. Here `before`, `between` and `after` are
/// the buffer before the first window, between the two, and after the second.
pub proof fn lemma_pull_takes_no_more_than_the_free_space(
    budget: int,
    before: Buffer,
    between: Buffer,
    after: Buffer,
)
    requires
        before.wf(),
        between.wf(),
        after.wf(),
        budget >= 0,
        between.capacity() == before.capacity(),
        between.read_index() == before.read_index(),
        between@.len() == before@.len() + lesser(budget, before.contiguous_free() as int),
        after.capacity() == between.capacity(),
        after.read_index() == between.read_index(),
        after@.len() == between@.len() + lesser(
            budget - lesser(budget, before.contiguous_free() as int),
            between.contiguous_free() as int,
        ),
    ensures
        after@.len() - before@.len() <= before.free_len(),
        after@.len() - before@.len() <= budget,
        after@.len() <= after.capacity(),
        pulled_on(budget - (after@.len() - before@.len()), after.contiguous_free() as int)
            is Releasing,
{
    before.lemma_bounds();
    between.lemma_bounds();
    after.lemma_bounds();
}

/// A read whose handshake reply is not the ready marker pulls nothing and
/// takes that for not ready, never for a hard error, whatever the other four
/// bytes of the reply hold and whatever the buffer holds: the reply leads to
/// the release, which is no transfer, and asks nothing of the frame at the
/// front of the buffer. Unless a whole frame was buffered before, the result
/// of the read is then not ready too.
pub proof fn lemma_unready_reply_stops_the_pull<T, E, VE>(
    reply: [u8; HEADER_LEN],
    remaining: int,
    contiguous: int,
    held: Seq<u8>,
    header_len: int,
    next: Reply<T, E, VE>,
)
    requires
        !is_ready(reply@),
    ensures
        read_successor::<T, E, VE>(
            Phase::Exchanging,
            Reply::Exchanged(reply),
            remaining,
            contiguous,
            held,
            header_len,
        ) == Phase::Releasing,
        !Phase::Releasing.on_bus(),
        !looks_for_frame::<T, E, VE>(Phase::Exchanging, Reply::Exchanged(reply)),
        pull_result::<T, E, VE>(Phase::Exchanging, Reply::Exchanged(reply)) == Err::<
            (),
            Pending<E>,
        >(Pending::NotReady),
        read_result::<T, E, VE>(Phase::Releasing, Err(Pending::NotReady), next) == Err::<
            T,
            Pending<Error<E, VE>>,
        >(Pending::NotReady),
{
}

/// While the buffer does not start with a whole frame, no read hands a frame
/// to the decoder: from the sample of a low line and from the release it
/// goes straight to its end.
pub proof fn lemma_partial_frame_is_not_decoded<T, E, VE>(
    reply: Reply<T, E, VE>,
    remaining: int,
    contiguous: int,
    held: Seq<u8>,
    header_len: int,
)
    requires
        !frame_ready(held, header_len),
    ensures
        read_successor(Phase::Releasing, reply, remaining, contiguous, held, header_len)
            == Phase::Finished,
        !(read_successor(Phase::Sampling, reply, remaining, contiguous, held, header_len)
            is Decoding),
{
}

} // verus!
