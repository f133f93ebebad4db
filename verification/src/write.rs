//! One attempt to write a frame to the radio.
//!
//! The host asks for a chance to write; the radio answers with the number of
//! bytes it will take. Header and payload go out only if both fit.

use vstd::prelude::*;
use crate::handshake::{
    is_ready, parse_spi_header, request, write_capacity, write_request, HEADER_LEN,
    WRITE_REQUEST,
};
use crate::transfer::{may_follow, Phase, Reply, Step};
use crate::{Error, Pending};

verus! {

/// Whether the radio's reply grants a write of `need` bytes: it is ready and
/// will accept that many.
pub open spec fn grants(reply: Seq<u8>, need: int) -> bool {
    is_ready(reply) && write_capacity(reply) >= need
}

/// The phase a write transaction enters from `phase` on `reply`, when it has
/// `need` bytes to send.
pub open spec fn write_successor<E, VE>(phase: Phase, need: int, reply: Reply<(), E, VE>) -> Phase {
    match phase {
        Phase::Selecting => if reply is Done {
            Phase::Exchanging
        } else {
            Phase::Releasing
        },
        Phase::Exchanging => match reply {
            Reply::Exchanged(header) => if grants(header@, need) {
                Phase::SendingHeader
            } else {
                Phase::Releasing
            },
            _ => Phase::Releasing,
        },
        Phase::SendingHeader => if reply is Done {
            Phase::SendingPayload
        } else {
            Phase::Releasing
        },
        Phase::Releasing => Phase::Finished,
        Phase::Finished => Phase::Finished,
        _ => Phase::Releasing,
    }
}

/// The result a write transaction settles on when `reply` in `phase` makes it
/// release the bus: success once the payload is out, the bus error if a
/// transfer failed, not ready in every other case.
pub open spec fn write_verdict<E, VE>(phase: Phase, reply: Reply<(), E, VE>) -> Result<
    (),
    Pending<Error<E, VE>>,
> {
    match reply {
        Reply::Done => if phase is SendingPayload {
            Ok(())
        } else {
            Err(Pending::NotReady)
        },
        Reply::Fault(e) => if phase is Exchanging || phase is SendingHeader
            || phase is SendingPayload {
            Err(Pending::Failed(Error::Comm(e)))
        } else {
            Err(Pending::NotReady)
        },
        _ => Err(Pending::NotReady),
    }
}

/// One attempt to write a frame header and its payload to the radio.
#[verifier::reject_recursive_types(VE)]
pub struct WriteTransaction<'a, E, VE> {
    header: &'a [u8],
    payload: &'a [u8],
    phase: Phase,
    outcome: Result<(), Pending<Error<E, VE>>>,
}

impl<'a, E, VE> WriteTransaction<'a, E, VE> {
    #[verifier::type_invariant]
    spec fn in_a_phase_of_writing(&self) -> bool {
        !(self.phase is Sampling) && !(self.phase is Receiving) && !(self.phase is Decoding)
    }

    /// The step the transaction waits on.
    pub closed spec fn phase(&self) -> Phase {
        self.phase
    }

    /// The frame header to send.
    pub closed spec fn header(&self) -> Seq<u8> {
        self.header@
    }

    /// The payload to send.
    pub closed spec fn payload(&self) -> Seq<u8> {
        self.payload@
    }

    /// The result to hand out once the bus is released; set on entering
    /// `Releasing`.
    pub closed spec fn outcome(&self) -> Result<(), Pending<Error<E, VE>>> {
        self.outcome
    }

    /// The number of bytes the radio must accept: header and payload.
    pub open spec fn needed(&self) -> int {
        (self.header().len() + self.payload().len()) as int
    }

    /// Starts a write of `header` followed by `payload`. The first step is
    /// to drive chip-select low.
    pub fn begin(header: &'a [u8], payload: &'a [u8]) -> (started: (
        Self,
        Step<'a, (), E, VE>,
    ))
        ensures
            started.0.phase() == Phase::Selecting,
            started.0.header() == header@,
            started.0.payload() == payload@,
            started.1 is Select,
    {
        (
            WriteTransaction {
                header,
                payload,
                phase: Phase::Selecting,
                outcome: Err(Pending::NotReady),
            },
            Step::Select,
        )
    }

    /// The step the transaction waits on.
    pub fn current_phase(&self) -> (phase: Phase)
        ensures
            phase == self.phase(),
    {
        self.phase
    }

    fn release(&mut self, outcome: Result<(), Pending<Error<E, VE>>>) -> (step: Step<
        'a,
        (),
        E,
        VE,
    >)
        ensures
            final(self).phase() == Phase::Releasing,
            final(self).outcome() == outcome,
            final(self).header() == old(self).header(),
            final(self).payload() == old(self).payload(),
            step is Release,
    {
        proof {
            use_type_invariant(&*self);
        }
        self.phase = Phase::Releasing;
        self.outcome = outcome;
        Step::Release
    }

    fn grant(&self, reply: &[u8; HEADER_LEN]) -> (granted: bool)
        ensures
            granted == grants(reply@, self.needed()),
    {
        match parse_spi_header::<E>(reply) {
            Ok((write_len, _)) => match self.header.len().checked_add(self.payload.len()) {
                Some(need) => write_len as usize >= need,
                None => false,
            },
            Err(_) => false,
        }
    }

    /// Takes the caller's reply to the pending step and gives the next step.
    ///
    /// After chip-select is low the handshake header is exchanged. The frame
    /// header and then the payload are sent only if the radio is ready and
    /// accepts both; else the attempt is not ready and nothing is sent. A
    /// failed transfer ends the attempt with that error. Every path then
    /// releases chip-select and, after that, hands out the result.
    pub fn advance(&mut self, reply: Reply<(), E, VE>) -> (step: Step<'a, (), E, VE>)
        ensures
            final(self).header() == old(self).header(),
            final(self).payload() == old(self).payload(),
            final(self).phase() == write_successor(old(self).phase(), old(self).needed(), reply),
            may_follow(old(self).phase(), final(self).phase()),
            final(self).phase().awaits(step),
            final(self).phase() is Releasing ==> final(self).outcome() == write_verdict(
                old(self).phase(),
                reply,
            ),
            step matches Step::Exchange(request_header) ==> request_header@ == request(
                WRITE_REQUEST,
            ),
            step matches Step::Send(bytes) ==> bytes@ == (if final(self).phase()
                is SendingHeader {
                old(self).header()
            } else {
                old(self).payload()
            }),
            step matches Step::Finished(result) ==> result == (if old(self).phase()
                is Releasing {
                old(self).outcome()
            } else {
                Err(Pending::NotReady)
            }),
    {
        proof {
            use_type_invariant(&*self);
        }
        match self.phase {
            Phase::Selecting => match reply {
                Reply::Done => {
                    self.phase = Phase::Exchanging;
                    Step::Exchange(write_request())
                },
                _ => self.release(Err(Pending::NotReady)),
            },
            Phase::Exchanging => match reply {
                Reply::Exchanged(header) => {
                    if self.grant(&header) {
                        self.phase = Phase::SendingHeader;
                        Step::Send(self.header)
                    } else {
                        self.release(Err(Pending::NotReady))
                    }
                },
                Reply::Fault(e) => self.release(Err(Pending::Failed(Error::Comm(e)))),
                _ => self.release(Err(Pending::NotReady)),
            },
            Phase::SendingHeader => match reply {
                Reply::Done => {
                    self.phase = Phase::SendingPayload;
                    Step::Send(self.payload)
                },
                Reply::Fault(e) => self.release(Err(Pending::Failed(Error::Comm(e)))),
                _ => self.release(Err(Pending::NotReady)),
            },
            Phase::SendingPayload => match reply {
                Reply::Done => self.release(Ok(())),
                Reply::Fault(e) => self.release(Err(Pending::Failed(Error::Comm(e)))),
                _ => self.release(Err(Pending::NotReady)),
            },
            Phase::Releasing => {
                let mut result = Err(Pending::NotReady);
                core::mem::swap(&mut self.outcome, &mut result);
                self.phase = Phase::Finished;
                Step::Finished(result)
            },
            Phase::Finished => Step::Finished(Err(Pending::NotReady)),
            _ => self.release(Err(Pending::NotReady)),
        }
    }
}

/// A write whose handshake reply is not the ready marker is not ready,
/// never a hard error, whatever the other four bytes of the reply hold: the
/// reply leads straight to the release, and the result is not ready.
pub proof fn lemma_unready_reply_stops_the_write<E, VE>(
    reply: [u8; HEADER_LEN],
    need: int,
)
    requires
        !is_ready(reply@),
    ensures
        write_successor::<E, VE>(Phase::Exchanging, need, Reply::Exchanged(reply))
            == Phase::Releasing,
        write_verdict::<E, VE>(Phase::Exchanging, Reply::Exchanged(reply)) == Err::<
            (),
            Pending<Error<E, VE>>,
        >(Pending::NotReady),
{
}

/// A write for which the radio accepts fewer bytes than header and payload
/// take is not ready: the reply leads straight to the release, with no
/// transfer of header or payload, and the result is not ready.
pub proof fn lemma_short_capacity_sends_nothing<E, VE>(
    reply: [u8; HEADER_LEN],
    need: int,
    next: Reply<(), E, VE>,
)
    requires
        write_capacity(reply@) < need,
    ensures
        write_successor::<E, VE>(Phase::Exchanging, need, Reply::Exchanged(reply))
            == Phase::Releasing,
        write_verdict::<E, VE>(Phase::Exchanging, Reply::Exchanged(reply)) == Err::<
            (),
            Pending<Error<E, VE>>,
        >(Pending::NotReady),
        write_successor::<E, VE>(Phase::Releasing, need, next) == Phase::Finished,
{
}

} // verus!
