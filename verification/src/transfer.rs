//! The vocabulary of the two bus transactions, and the order they keep.
//!
//! A transaction never touches the bus itself. It tells its caller the next
//! step to perform (drive a line, run a transfer, decode a frame) and takes
//! the caller's reply to decide the step after that. Once chip-select has
//! been asked low, every path asks it high again after the last transfer.
//!
//! A reply that does not answer the pending step abandons the attempt: no
//! further transfer is made, chip-select is released if it is held, and the
//! write, or the pull of a read, counts as not ready. The reply to a release
//! is not looked at: whatever it is, the line is taken to be high.

use vstd::prelude::*;
use bluetooth_hci::event::Error as EventError;
use crate::cb::lesser;
use crate::event::Frame;
use crate::handshake::HEADER_LEN;
use crate::{Error, Pending};

verus! {

/// Where a transaction stands: the step it has asked for and waits on.
#[derive(Clone, Copy, Debug, PartialEq, Eq, Structural)]
pub enum Phase {
    /// Waits for the level of the readiness line.
    Sampling,
    /// Waits for chip-select to be driven low.
    Selecting,
    /// Waits for the radio's reply to the handshake header.
    Exchanging,
    /// Waits for the frame header to be written.
    SendingHeader,
    /// Waits for the payload to be written.
    SendingPayload,
    /// Waits for the receive window to be filled.
    Receiving,
    /// Waits for chip-select to be driven high.
    Releasing,
    /// Waits for the decoder's verdict on a frame.
    Decoding,
    /// Over; the result has been handed out.
    Finished,
}

/// What the caller is to do next.
#[verifier::reject_recursive_types(VE)]
pub enum Step<'a, T, E, VE> {
    /// Sample the readiness line.
    Sample,
    /// Drive chip-select low.
    Select,
    /// Send these five bytes in a duplex transfer and report the five bytes
    /// that came back.
    Exchange([u8; HEADER_LEN]),
    /// Send these bytes in a write-only transfer.
    Send(&'a [u8]),
    /// Run a duplex transfer over this window of the ring buffer; what the
    /// radio sends is left in it.
    Receive(&'a mut [u8]),
    /// Drive chip-select high.
    Release,
    /// Decode this frame.
    Decode(Frame),
    /// Nothing more: this is the result of the transaction.
    Finished(Result<T, Pending<Error<E, VE>>>),
}

/// What the caller reports after a step.
#[verifier::reject_recursive_types(VE)]
pub enum Reply<T, E, VE> {
    /// The line was driven, or the transfer went through.
    Done,
    /// The readiness line was sampled: `true` if the radio has data.
    Line(bool),
    /// The handshake went through; these are the five bytes of the reply.
    Exchanged([u8; HEADER_LEN]),
    /// The line could not be sampled, or the bus transfer failed.
    Fault(E),
    /// The decoder's verdict on the frame.
    Decoded(Result<T, EventError<VE>>),
}

impl Phase {
    /// Whether `step` is the step a transaction in this phase waits on.
    pub open spec fn awaits<T, E, VE>(self, step: Step<'_, T, E, VE>) -> bool {
        match self {
            Phase::Sampling => step is Sample,
            Phase::Selecting => step is Select,
            Phase::Exchanging => step is Exchange,
            Phase::SendingHeader => step is Send,
            Phase::SendingPayload => step is Send,
            Phase::Receiving => step is Receive,
            Phase::Releasing => step is Release,
            Phase::Decoding => step is Decode,
            Phase::Finished => step is Finished,
        }
    }

    /// Whether the step of this phase is a transfer on the bus.
    pub open spec fn on_bus(self) -> bool {
        self is Exchanging || self is SendingHeader || self is SendingPayload || self is Receiving
    }

    /// How far along a transaction in this phase is. No step leads back to
    /// an earlier stage.
    pub open spec fn stage(self) -> int {
        match self {
            Phase::Sampling => 0,
            Phase::Selecting => 1,
            Phase::Exchanging => 2,
            Phase::SendingHeader => 3,
            Phase::SendingPayload => 4,
            Phase::Receiving => 4,
            Phase::Releasing => 5,
            Phase::Decoding => 6,
            Phase::Finished => 7,
        }
    }
}

/// The phases that can come directly after `before`, in either transaction.
pub open spec fn may_follow(before: Phase, after: Phase) -> bool {
    match before {
        Phase::Sampling => after is Selecting || after is Decoding || after is Finished,
        Phase::Selecting => after is Exchanging || after is Releasing,
        Phase::Exchanging => after is SendingHeader || after is Receiving || after is Releasing,
        Phase::SendingHeader => after is SendingPayload || after is Releasing,
        Phase::SendingPayload => after is Releasing,
        Phase::Receiving => after is Receiving || after is Releasing,
        Phase::Releasing => after is Decoding || after is Finished,
        Phase::Decoding => after is Finished,
        Phase::Finished => after is Finished,
    }
}

/// A window of `n` zero bytes.
pub open spec fn zeros(n: int) -> Seq<u8> {
    Seq::new(n as nat, |i: int| 0u8)
}

/// How many bytes to pull in one transfer: what the radio still has, capped
/// by the room before the ring buffer wraps.
pub fn transfer_len(remaining: usize, contiguous: usize) -> (n: usize)
    ensures
        n == lesser(remaining as int, contiguous as int),
{
    if remaining < contiguous {
        remaining
    } else {
        contiguous
    }
}

/// Whether `phases` is the course of one transaction from its start to its
/// end: a write starts by asking for chip-select and a read by sampling the
/// readiness line, each phase may follow the one before, and the course
/// stops at the first `Finished`.
pub open spec fn is_course(phases: Seq<Phase>) -> bool {
    &&& phases.len() > 0
    &&& phases[0] is Selecting || phases[0] is Sampling
    &&& forall|i: int|
        0 <= i < phases.len() - 1 ==> may_follow(#[trigger] phases[i], phases[i + 1])
    &&& forall|i: int|
        0 <= i < phases.len() ==> (#[trigger] phases[i] is Finished <==> i == phases.len() - 1)
}

/// A transaction never steps back: a later phase is at no earlier stage.
pub proof fn lemma_stages_never_fall(phases: Seq<Phase>, i: int, j: int)
    requires
        is_course(phases),
        0 <= i <= j < phases.len(),
    ensures
        phases[i].stage() <= phases[j].stage(),
    decreases j - i,
{
    if i < j {
        lemma_stages_never_fall(phases, i, j - 1);
        assert(may_follow(phases[j - 1], phases[j]));
    }
}

/// The place at or after `from` where a transaction that holds chip-select
/// asks to release it.
proof fn lemma_selected_reaches_release(phases: Seq<Phase>, from: int) -> (release: int)
    requires
        is_course(phases),
        0 <= from < phases.len(),
        phases[from] is Selecting || phases[from].on_bus() || phases[from] is Releasing,
    ensures
        from <= release < phases.len(),
        phases[release] is Releasing,
    decreases phases.len() - from,
{
    if phases[from] is Releasing {
        from
    } else {
        assert(may_follow(phases[from], phases[from + 1]));
        lemma_selected_reaches_release(phases, from + 1)
    }
}

/// Chip-select goes low once and high once in every transaction that asks
/// for it, however the transaction ends: the release comes after the
/// select, neither step is asked for a second time, and every bus transfer
/// lies between the two. The place of the release is returned.
pub proof fn lemma_chip_select_once(phases: Seq<Phase>, select: int) -> (release: int)
    requires
        is_course(phases),
        0 <= select < phases.len(),
        phases[select] is Selecting,
    ensures
        select < release < phases.len() - 1,
        phases[release] is Releasing,
        forall|i: int|
            0 <= i < phases.len() ==> (#[trigger] phases[i] is Selecting <==> i == select),
        forall|i: int|
            0 <= i < phases.len() ==> (#[trigger] phases[i] is Releasing <==> i == release),
        forall|i: int|
            0 <= i < phases.len() && (#[trigger] phases[i]).on_bus() ==> select < i < release,
{
    let release = lemma_selected_reaches_release(phases, select);
    assert forall|i: int| 0 <= i < phases.len() implies (#[trigger] phases[i] is Selecting <==> i
        == select) by {
        if phases[i] is Selecting && i < select {
            assert(may_follow(phases[i], phases[i + 1]));
            lemma_stages_never_fall(phases, i + 1, select);
        }
        if phases[i] is Selecting && i > select {
            assert(may_follow(phases[select], phases[select + 1]));
            lemma_stages_never_fall(phases, select + 1, i);
        }
    }
    assert forall|i: int| 0 <= i < phases.len() implies (#[trigger] phases[i] is Releasing <==> i
        == release) by {
        if phases[i] is Releasing && i < release {
            assert(may_follow(phases[i], phases[i + 1]));
            lemma_stages_never_fall(phases, i + 1, release);
        }
        if phases[i] is Releasing && i > release {
            assert(may_follow(phases[release], phases[release + 1]));
            lemma_stages_never_fall(phases, release + 1, i);
        }
    }
    assert forall|i: int| 0 <= i < phases.len() && (#[trigger] phases[i]).on_bus() implies select
        < i < release by {
        if i <= select {
            lemma_stages_never_fall(phases, i, select);
        }
        if i >= release {
            lemma_stages_never_fall(phases, release, i);
        }
    }
    release
}

/// Nothing is transferred once the release has been asked for: no phase
/// after it is a transfer on the bus.
pub proof fn lemma_no_transfer_after_release(phases: Seq<Phase>, release: int, i: int)
    requires
        is_course(phases),
        0 <= release <= i < phases.len(),
        phases[release] is Releasing,
    ensures
        !phases[i].on_bus(),
{
    lemma_stages_never_fall(phases, release, i);
}

/// A transaction that never asks for chip-select makes no bus transfer and
/// asks for no release.
pub proof fn lemma_unselected_leaves_the_bus_alone(phases: Seq<Phase>, i: int)
    requires
        is_course(phases),
        forall|k: int| 0 <= k < phases.len() ==> !(#[trigger] phases[k] is Selecting),
        0 <= i < phases.len(),
    ensures
        !phases[i].on_bus(),
        !(phases[i] is Releasing),
    decreases i,
{
    if i > 0 {
        lemma_unselected_leaves_the_bus_alone(phases, i - 1);
        assert(may_follow(phases[i - 1], phases[i]));
    }
}

} // verus!
