//! Circular byte buffer over a borrowed backing store.
//!
//! The buffer hands out its free space one contiguous window at a time, so a
//! bus transfer can fill it in place. A write that crosses the end of the
//! store takes two windows: first the bytes up to the end, then the rest from
//! the start.

use vstd::prelude::*;

verus! {

/// The physical position `offset` places after `start` in a store of `cap`
/// bytes, wrapping once at the end of the store.
pub open spec fn slot(cap: int, start: int, offset: int) -> int {
    if start + offset >= cap {
        start + offset - cap
    } else {
        start + offset
    }
}

/// The smaller of two lengths.
pub open spec fn lesser(a: int, b: int) -> int {
    if a <= b {
        a
    } else {
        b
    }
}

/// The bytes that `count` unread positions of `store` hold, starting at
/// `read` and wrapping at the end of the store.
pub open spec fn unread(store: Seq<u8>, read: int, count: int) -> Seq<u8> {
    Seq::new(count as nat, |i: int| store[slot(store.len() as int, read, i)])
}

/// What a buffer holds after the chunks of `writes` were appended to
/// `held`, one after the other.
pub open spec fn after_writes(held: Seq<u8>, writes: Seq<Seq<u8>>) -> Seq<u8>
    decreases writes.len(),
{
    if writes.len() == 0 {
        held
    } else {
        after_writes(held, writes.drop_last()) + writes.last()
    }
}

/// The total length of the chunks of `writes`.
pub open spec fn total_len(writes: Seq<Seq<u8>>) -> nat
    decreases writes.len(),
{
    if writes.len() == 0 {
        0
    } else {
        total_len(writes.drop_last()) + writes.last().len()
    }
}

/// Where chunk `k` of `writes` starts in a buffer that held `held` bytes
/// before the first chunk: behind those and behind the chunks before it.
pub open spec fn chunk_start(held: int, writes: Seq<Seq<u8>>, k: int) -> int {
    held + total_len(writes.take(k))
}

/// The state of a buffer besides its store: where the next byte is written,
/// where the oldest unread byte lies, and how many bytes are unread.
#[derive(Clone, Copy)]
struct Cursors {
    write: usize,
    read: usize,
    count: usize,
}

/// Fixed-capacity circular byte buffer. Its view is the sequence of unread
/// bytes, oldest first.
pub struct Buffer<'buf> {
    store: &'buf mut [u8],
    at: Cursors,
}

impl<'buf> View for Buffer<'buf> {
    type V = Seq<u8>;

    closed spec fn view(&self) -> Seq<u8> {
        unread(self.store@, self.at.read as int, self.at.count as int)
    }
}

/// Borrows `store[start..end]`: a call of `IndexMut::index_mut` of `[u8]`
/// with a `Range<usize>`. The range lies inside the store, so the call does
/// not panic. The window holds the bytes of that range. Whatever the borrower
/// leaves in it takes their place in the store, the bytes around it stay, and
/// neither the window nor the store changes its length: a slice never does.
#[verifier::external_body]
fn window_of(store: &mut [u8], start: usize, end: usize) -> (window: &mut [u8])
    requires
        start <= end <= old(store)@.len(),
    ensures
        window@ == old(store)@.subrange(start as int, end as int),
        final(window)@.len() == end - start,
        final(store)@ == old(store)@.subrange(0, start as int) + final(window)@
            + old(store)@.subrange(end as int, old(store)@.len() as int),
    no_unwind
{
    &mut store[start..end]
}

impl<'buf> Buffer<'buf> {
    /// The number of bytes the backing store holds.
    pub closed spec fn capacity(&self) -> nat {
        self.store@.len()
    }

    /// The physical position of the oldest unread byte.
    pub closed spec fn read_index(&self) -> nat {
        self.at.read as nat
    }

    /// The physical position at which the next byte will be written.
    pub open spec fn write_index(&self) -> nat {
        slot(self.capacity() as int, self.read_index() as int, self@.len() as int) as nat
    }

    /// The number of bytes that can still be written.
    pub open spec fn free_len(&self) -> nat {
        (self.capacity() - self@.len()) as nat
    }

    /// The number of bytes that can be written before the store wraps.
    pub open spec fn contiguous_free(&self) -> nat {
        lesser(self.capacity() - self.write_index(), self.free_len() as int) as nat
    }

    /// The count is within the capacity, the cursors lie inside the store,
    /// and the write cursor is the count ahead of the read cursor.
    #[verifier::type_invariant]
    pub closed spec fn wf(&self) -> bool {
        let cap = self.store@.len() as int;
        &&& self.at.count <= cap
        &&& self.at.read <= cap
        &&& cap > 0 ==> self.at.read < cap
        &&& self.at.write == slot(cap, self.at.read as int, self.at.count as int)
    }

    /// A well-formed buffer never holds more than its capacity, and its
    /// cursors stay inside the store.
    pub proof fn lemma_bounds(&self)
        requires
            self.wf(),
        ensures
            self@.len() <= self.capacity(),
            self.read_index() <= self.capacity(),
            self.write_index() <= self.capacity(),
            self.capacity() > 0 ==> self.read_index() < self.capacity() && self.write_index()
                < self.capacity(),
            self.contiguous_free() <= self.free_len(),
            self.contiguous_free() == 0 <==> self@.len() == self.capacity(),
    {
    }

    /// An empty buffer over `store`.
    pub fn new(store: &'buf mut [u8]) -> (buffer: Buffer<'buf>)
        ensures
            buffer@ == Seq::<u8>::empty(),
            buffer.capacity() == old(store)@.len(),
            buffer.read_index() == 0,
            buffer.contiguous_free() == old(store)@.len(),
    {
        Buffer { store, at: Cursors { write: 0, read: 0, count: 0 } }
    }

    /// The number of bytes the backing store holds.
    pub fn size(&self) -> (cap: usize)
        ensures
            cap == self.capacity(),
    {
        self.store.len()
    }

    /// The number of unread bytes.
    pub fn available_len(&self) -> (len: usize)
        ensures
            len == self@.len(),
    {
        self.at.count
    }

    /// The length of the next writable region before the store wraps; 0 when
    /// the buffer is full.
    pub fn next_contiguous_slice_len(&self) -> (len: usize)
        ensures
            len == self.contiguous_free(),
            len <= self.free_len(),
            len == 0 <==> self@.len() == self.capacity(),
    {
        proof {
            use_type_invariant(self);
        }
        let cap = self.store.len();
        let to_end = cap - self.at.write;
        let free = cap - self.at.count;
        if to_end <= free {
            to_end
        } else {
            free
        }
    }

    /// Appends a window of `n` bytes at the write cursor and lends it to the
    /// caller to fill in place. The window counts as written at once: the
    /// bytes the caller leaves in it are the bytes appended.
    pub fn next_mut_slice(&mut self, n: usize) -> (window: &mut [u8])
        requires
            n <= old(self).contiguous_free(),
        ensures
            window@.len() == n,
            final(window)@.len() == n,
            final(self).capacity() == old(self).capacity(),
            final(self).read_index() == old(self).read_index(),
            final(self)@ == old(self)@ + final(window)@,
    {
        proof {
            use_type_invariant(&*self);
        }
        let cap = self.store.len();
        let start = self.at.write;
        let end = start + n;
        self.at = Cursors {
            write: if end == cap {
                0
            } else {
                end
            },
            read: self.at.read,
            count: self.at.count + n,
        };
        let ghost before = self.store@;
        let ghost read = self.at.read as int;
        let ghost held = old(self).at.count as int;
        let window = window_of(self.store, start, end);
        proof {
            let after = before.subrange(0, start as int) + final(window)@ + before.subrange(
                end as int,
                cap as int,
            );
            assert(after.len() == cap);
            assert forall|i: int| 0 <= i < held + n implies #[trigger] unread(
                after,
                read,
                held + n,
            )[i] == (unread(before, read, held) + final(window)@)[i] by {
                let at = slot(cap as int, read, i);
                if i < held {
                    assert(at < start || at >= end);
                } else {
                    assert(at == start + (i - held));
                }
            }
            assert(unread(after, read, held + n) =~= unread(before, read, held)
                + final(window)@);
        }
        window
    }

    /// The byte `offset` places after the read cursor; nothing is consumed.
    pub fn peek(&self, offset: usize) -> (byte: u8)
        requires
            offset < self@.len(),
        ensures
            byte == self@[offset as int],
    {
        proof {
            use_type_invariant(self);
        }
        let cap = self.store.len();
        let to_end = cap - self.at.read;
        if offset >= to_end {
            self.store[offset - to_end]
        } else {
            self.store[self.at.read + offset]
        }
    }

    /// Moves the `n` oldest bytes into the front of `out` and consumes them.
    pub fn take_slice(&mut self, n: usize, out: &mut [u8])
        requires
            n <= old(self)@.len(),
            n <= old(out)@.len(),
        ensures
            final(self).capacity() == old(self).capacity(),
            final(self).read_index() == slot(
                old(self).capacity() as int,
                old(self).read_index() as int,
                n as int,
            ),
            final(self)@ == old(self)@.subrange(n as int, old(self)@.len() as int),
            final(out)@ == old(self)@.subrange(0, n as int) + old(out)@.subrange(
                n as int,
                old(out)@.len() as int,
            ),
    {
        proof {
            use_type_invariant(&*self);
        }
        let cap = self.store.len();
        let to_end = cap - self.at.read;
        let mut i: usize = 0;
        while i < n
            invariant
                i <= n,
                n <= self.at.count,
                self.wf(),
                *self == *old(self),
                cap == self.store@.len(),
                to_end == cap - self.at.read,
                out@.len() == old(out)@.len(),
                n <= out@.len(),
                forall|j: int| 0 <= j < i ==> out@[j] == self@[j],
                forall|j: int| i <= j < out@.len() ==> out@[j] == old(out)@[j],
            decreases n - i,
        {
            let byte = if i >= to_end {
                self.store[i - to_end]
            } else {
                self.store[self.at.read + i]
            };
            out[i] = byte;
            i += 1;
        }
        self.at = Cursors {
            write: self.at.write,
            read: if n >= to_end {
                n - to_end
            } else {
                self.at.read + n
            },
            count: self.at.count - n,
        };
        proof {
            assert(self@ =~= old(self)@.subrange(n as int, old(self)@.len() as int));
            assert(out@ =~= old(self)@.subrange(0, n as int) + old(out)@.subrange(
                n as int,
                old(out)@.len() as int,
            ));
        }
    }
}

/// Chunks written one after the other are read back in the order written,
/// and each of them whole: behind what the buffer held before and behind the
/// chunks written before it, chunk `k` comes back byte for byte. This holds
/// wherever in the store the chunks came to lie, across its end too.
pub proof fn lemma_writes_read_back_in_order(held: Seq<u8>, writes: Seq<Seq<u8>>, k: int)
    requires
        0 <= k < writes.len(),
    ensures
        after_writes(held, writes).len() == held.len() + total_len(writes),
        after_writes(held, writes).subrange(0, held.len() as int) == held,
        total_len(writes.take(k)) + writes[k].len() <= total_len(writes),
        after_writes(held, writes).subrange(
            chunk_start(held.len() as int, writes, k),
            chunk_start(held.len() as int, writes, k) + writes[k].len(),
        ) == writes[k],
    decreases writes.len(),
{
    let front = writes.drop_last();
    let all = after_writes(held, writes);
    lemma_after_writes_len(held, front);
    assert(all.subrange(0, held.len() as int) =~= held) by {
        lemma_after_writes_keeps_held(held, front);
    }
    if k == writes.len() - 1 {
        assert(writes.take(k) =~= front);
        let from = chunk_start(held.len() as int, writes, k);
        assert(all.subrange(from, from + writes[k].len()) =~= writes[k]);
    } else {
        lemma_writes_read_back_in_order(held, front, k);
        assert(writes.take(k) =~= front.take(k));
        assert(front[k] == writes[k]);
        let from = chunk_start(held.len() as int, front, k);
        assert(all.subrange(from, from + writes[k].len()) =~= after_writes(held, front).subrange(
            from,
            from + writes[k].len(),
        ));
    }
}

proof fn lemma_after_writes_len(held: Seq<u8>, writes: Seq<Seq<u8>>)
    ensures
        after_writes(held, writes).len() == held.len() + total_len(writes),
    decreases writes.len(),
{
    if writes.len() > 0 {
        lemma_after_writes_len(held, writes.drop_last());
    }
}

proof fn lemma_after_writes_keeps_held(held: Seq<u8>, writes: Seq<Seq<u8>>)
    ensures
        after_writes(held, writes).len() >= held.len(),
        after_writes(held, writes).subrange(0, held.len() as int) == held,
    decreases writes.len(),
{
    if writes.len() == 0 {
        assert(held.subrange(0, held.len() as int) =~= held);
    } else {
        lemma_after_writes_keeps_held(held, writes.drop_last());
        assert(after_writes(held, writes).subrange(0, held.len() as int) =~= after_writes(
            held,
            writes.drop_last(),
        ).subrange(0, held.len() as int));
    }
}

/// A window of exactly the contiguous length, and the window offered after
/// it, together span the free space: the second never reaches past it.
pub proof fn lemma_two_windows_span_free_space(before: Buffer, after: Buffer)
    requires
        before.wf(),
        after.wf(),
        after.capacity() == before.capacity(),
        after.read_index() == before.read_index(),
        after@.len() == before@.len() + before.contiguous_free(),
    ensures
        before.contiguous_free() + after.contiguous_free() == before.free_len(),
        after.free_len() == after.contiguous_free(),
{
}

} // verus!

