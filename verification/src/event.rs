//! Reassembly of event frames from the bytes the ring buffer holds.
//!
//! A frame is a header of fixed length, whose second byte gives the number of
//! parameter bytes, followed by that many parameter bytes. Bytes arrive in
//! chunks of any size, so a frame is taken out of the buffer only once all of
//! it is there.

use vstd::prelude::*;
use vstd::slice::slice_subrange;
use bluetooth_hci::event::Error as EventError;
use crate::cb::{slot, Buffer};
use crate::{Error, Pending};

verus! {

/// The most bytes a frame may have: the size of the scratch area it is copied
/// to.
pub const MAX_EVENT_SIZE: usize = 128;

/// Position of the parameter length in a frame's header.
pub const PARAM_LEN_BYTE: usize = 1;

/// The length of the frame at the front of `held`, as its header announces
/// it.
pub open spec fn frame_len(held: Seq<u8>, header_len: int) -> int {
    header_len + held[PARAM_LEN_BYTE as int]
}

/// Whether `held` starts with a whole frame: the header is there, and so are
/// all the parameter bytes it announces.
pub open spec fn frame_ready(held: Seq<u8>, header_len: int) -> bool {
    held.len() >= header_len && held.len() >= frame_len(held, header_len)
}

/// Whether the frame at the front of `held`, if it is whole, fits the scratch
/// area.
pub open spec fn frame_fits(held: Seq<u8>, header_len: int) -> bool {
    frame_ready(held, header_len) ==> frame_len(held, header_len) <= MAX_EVENT_SIZE
}

/// One whole frame, copied out of the ring buffer. Its view is the frame's
/// bytes, header first.
pub struct Frame {
    bytes: [u8; MAX_EVENT_SIZE],
    len: usize,
}

impl View for Frame {
    type V = Seq<u8>;

    closed spec fn view(&self) -> Seq<u8> {
        self.bytes@.subrange(0, self.len as int)
    }
}

impl Frame {
    #[verifier::type_invariant]
    spec fn within_scratch(&self) -> bool {
        self.len <= MAX_EVENT_SIZE
    }

    /// The number of bytes of the frame.
    pub fn len(&self) -> (len: usize)
        ensures
            len == self@.len(),
            len <= MAX_EVENT_SIZE,
    {
        proof {
            use_type_invariant(self);
        }
        self.len
    }

    /// The bytes of the frame.
    pub fn as_slice(&self) -> (bytes: &[u8])
        ensures
            bytes@ == self@,
    {
        proof {
            use_type_invariant(self);
        }
        slice_subrange(self.bytes.as_slice(), 0, self.len)
    }
}

/// Tells whether the frame at the front of the buffer, if it is whole, fits
/// the scratch area.
pub fn next_frame_fits(rx: &Buffer, header_len: usize) -> (fits: bool)
    requires
        header_len > PARAM_LEN_BYTE,
    ensures
        fits == frame_fits(rx@, header_len as int),
{
    let available = rx.available_len();
    if available < header_len {
        return true;
    }
    let param_len = rx.peek(PARAM_LEN_BYTE) as usize;
    if available - header_len < param_len {
        return true;
    }
    header_len + param_len <= MAX_EVENT_SIZE
}

/// Takes the frame at the front of the buffer, if all of it has arrived.
/// Until then nothing is consumed: a partial frame stays where it is.
pub fn take_next_frame(rx: &mut Buffer, header_len: usize) -> (frame: Option<Frame>)
    requires
        header_len > PARAM_LEN_BYTE,
        frame_fits(old(rx)@, header_len as int),
    ensures
        final(rx).capacity() == old(rx).capacity(),
        frame is Some <==> frame_ready(old(rx)@, header_len as int),
        frame is None ==> final(rx)@ == old(rx)@
            && final(rx).read_index() == old(rx).read_index(),
        frame matches Some(f) ==> {
            let n = frame_len(old(rx)@, header_len as int);
            &&& f@ == old(rx)@.subrange(0, n)
            &&& final(rx)@ == old(rx)@.subrange(n, old(rx)@.len() as int)
            &&& final(rx).read_index() == slot(
                old(rx).capacity() as int,
                old(rx).read_index() as int,
                n,
            )
        },
{
    let available = rx.available_len();
    if available < header_len {
        return None;
    }
    let param_len = rx.peek(PARAM_LEN_BYTE) as usize;
    if available - header_len < param_len {
        return None;
    }
    let n = header_len + param_len;
    let mut bytes: [u8; MAX_EVENT_SIZE] = [0; MAX_EVENT_SIZE];
    rx.take_slice(n, &mut bytes);
    let frame = Frame { bytes, len: n };
    assert(frame@ =~= old(rx)@.subrange(0, n as int));
    Some(frame)
}

/// The result of a read, given how the pull from the radio went and what
/// the decoder made of the frame that was taken, if one was.
pub open spec fn combined<T, E, VE>(
    pulled: Result<(), Pending<E>>,
    decoded: Option<Result<T, EventError<VE>>>,
) -> Result<T, Pending<Error<E, VE>>> {
    match decoded {
        Some(Ok(event)) => Ok(event),
        Some(Err(e)) => Err(Pending::Failed(Error::BLE(e))),
        None => match pulled {
            Err(Pending::Failed(e)) => Err(Pending::Failed(Error::Comm(e))),
            _ => Err(Pending::NotReady),
        },
    }
}

/// Settles a read. A frame that was taken decides: the decoder's event or
/// its error is the result, however the pull went. With no frame the read is
/// not ready, unless the pull failed for good: then that failure is the
/// result.
pub fn read_outcome<T, E, VE>(
    pulled: Result<(), Pending<E>>,
    decoded: Option<Result<T, EventError<VE>>>,
) -> (result: Result<T, Pending<Error<E, VE>>>)
    ensures
        result == combined(pulled, decoded),
{
    match decoded {
        Some(Ok(event)) => Ok(event),
        Some(Err(e)) => Err(Pending::Failed(Error::BLE(e))),
        None => match pulled {
            Err(Pending::Failed(e)) => Err(Pending::Failed(Error::Comm(e))),
            _ => Err(Pending::NotReady),
        },
    }
}

} // verus!
