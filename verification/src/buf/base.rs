use vstd::prelude::*;

use super::constant::{DEFAULT_BUFFER_MAX_SIZE, DEFAULT_BUFFER_MIN_SIZE};

verus! {

/// `n` zero bytes.
pub open spec fn zeros(n: nat) -> Seq<u8> {
    Seq::new(n, |i: int| 0u8)
}

/// How far `cap` still is below `required`; the measure of the doubling loop.
pub open spec fn growth_gap(cap: nat, required: nat) -> nat {
    if cap < required {
        (required - cap) as nat
    } else {
        0
    }
}

/// The capacity that the growth policy picks: starting at `cap`, double until
/// `required` is reached, but stop at `max` as soon as a doubling passes it.
pub open spec fn required_capacity(cap: nat, required: nat, max: nat) -> nat
    decreases growth_gap(cap, required),
{
    if cap == 0 || cap >= required {
        cap
    } else if cap * 2 > max {
        max
    } else {
        required_capacity(cap * 2, required, max)
    }
}

/// No doubling step of the growth policy leaves the range of `usize`.
pub open spec fn doubling_fits(cap: nat, required: nat, max: nat) -> bool
    decreases growth_gap(cap, required),
{
    if cap == 0 || cap >= required {
        true
    } else {
        cap * 2 <= usize::MAX && (cap * 2 > max || doubling_fits(cap * 2, required, max))
    }
}

/// The policy picks at least the requirement unless it stops at the limit,
/// and when it has to grow at all it never passes the limit.
pub proof fn lemma_required_capacity_bounds(cap: nat, required: nat, max: nat)
    requires
        cap > 0,
    ensures
        required_capacity(cap, required, max) >= required || required_capacity(cap, required, max)
            == max,
        cap < required ==> required_capacity(cap, required, max) <= max,
    decreases growth_gap(cap, required),
{
    if cap >= required {
    } else if cap * 2 > max {
    } else {
        lemma_required_capacity_bounds(cap * 2, required, max);
    }
}

/// The abstract state of a buffered stream: the whole backing storage, the
/// read position `head`, the write position `tail` and the size limit.
/// The readable bytes are `storage[head..tail]`.
#[verifier::ext_equal]
pub struct StreamModel {
    pub storage: Seq<u8>,
    pub head: nat,
    pub tail: nat,
    pub max_size: nat,
}

impl StreamModel {
    /// A stream with zeroed storage of `capacity` bytes and nothing to read.
    pub open spec fn empty(capacity: nat, max_size: nat) -> StreamModel {
        StreamModel { storage: zeros(capacity), head: 0, tail: 0, max_size }
    }

    pub open spec fn capacity(self) -> nat {
        self.storage.len()
    }

    /// The storage is no larger than the size limit.
    pub open spec fn within_limit(self) -> bool {
        self.capacity() <= self.max_size
    }

    /// Number of readable bytes.
    pub open spec fn len(self) -> nat {
        (self.tail - self.head) as nat
    }

    pub open spec fn wf(self) -> bool {
        &&& self.head <= self.tail <= self.storage.len()
        &&& self.storage.len() <= usize::MAX
        &&& self.max_size <= usize::MAX
    }

    /// The readable bytes, oldest first.
    pub open spec fn contents(self) -> Seq<u8> {
        self.storage.subrange(self.head as int, self.tail as int)
    }

    pub open spec fn with_head(self, head: nat) -> StreamModel {
        StreamModel { head, ..self }
    }

    pub open spec fn with_tail(self, tail: nat) -> StreamModel {
        StreamModel { tail, ..self }
    }

    pub open spec fn with_max_size(self, max_size: nat) -> StreamModel {
        StreamModel { max_size, ..self }
    }

    /// A request for `len` bytes into a buffer of `buf_len` bytes can be served.
    pub open spec fn can_peek(self, buf_len: nat, len: nat) -> bool {
        len <= self.len() && len <= buf_len
    }

    /// `n` bytes fit behind the tail without moving anything.
    pub open spec fn fits(self, n: nat) -> bool {
        n <= self.capacity() - self.tail
    }

    /// A write of `n` bytes is refused: no room behind the tail, and the size
    /// limit leaves no room for the readable bytes and `n` more.
    pub open spec fn write_refused(self, n: nat) -> bool {
        !self.fits(n) && self.max_size < self.len() + n
    }

    /// A write of `n` bytes has to move to larger storage.
    pub open spec fn needs_grow(self, n: nat) -> bool {
        !self.fits(n) && !self.write_refused(n) && self.capacity() < self.len() + n
    }

    /// The capacity picked when a write of `n` bytes grows the storage.
    pub open spec fn grown_capacity(self, n: nat) -> nat {
        required_capacity(self.capacity(), self.capacity() + n, self.max_size)
    }

    /// The inputs on which a write of `n` bytes runs to its end: the size limit
    /// is not below the readable length when it is consulted, and growing starts
    /// from a nonzero capacity and stays inside `usize`.
    pub open spec fn write_defined(self, n: nat) -> bool {
        ||| self.fits(n)
        ||| {
            &&& self.len() <= self.max_size
            &&& self.needs_grow(n) ==> {
                &&& self.capacity() > 0
                &&& self.capacity() + n <= usize::MAX
                &&& doubling_fits(self.capacity(), self.capacity() + n, self.max_size)
            }
        }
    }

    /// The state after `data` was written (when the write is not refused).
    pub open spec fn after_write(self, data: Seq<u8>) -> StreamModel {
        let n = data.len();
        if self.fits(n) {
            StreamModel {
                storage: self.storage.take(self.tail as int) + data + self.storage.skip(
                    (self.tail + n) as int,
                ),
                tail: self.tail + n,
                ..self
            }
        } else if self.needs_grow(n) {
            StreamModel {
                storage: self.contents() + data + zeros(
                    (self.grown_capacity(n) - self.len() - n) as nat,
                ),
                head: 0,
                tail: self.len() + n,
                max_size: self.max_size,
            }
        } else {
            StreamModel {
                storage: self.contents() + data + self.storage.skip((self.len() + n) as int),
                head: 0,
                tail: self.len() + n,
                max_size: self.max_size,
            }
        }
    }

    /// The state after the storage was extended by `extra` bytes, or the same
    /// state when the extension would pass the size limit.
    pub open spec fn reserved(self, extra: nat) -> StreamModel {
        if self.capacity() + extra > self.max_size {
            self
        } else {
            StreamModel { storage: self.storage + zeros(extra), ..self }
        }
    }

    /// The size limit that a request for `value` sets.
    pub open spec fn clamped_max_size(value: nat) -> nat {
        if value < DEFAULT_BUFFER_MIN_SIZE {
            DEFAULT_BUFFER_MIN_SIZE as nat
        } else {
            value
        }
    }

    /// `storage[pos..pos + len]` lies within the readable bytes.
    pub open spec fn readable_range(self, pos: nat, len: nat) -> bool {
        self.head <= pos && pos + len <= self.tail
    }

    /// `storage[pos..pos + len]` lies within the storage.
    pub open spec fn storage_range(self, pos: nat, len: nat) -> bool {
        pos + len <= self.capacity()
    }
}

/// The state and the size accounting of a buffered byte stream.
pub trait BufferedStreamBase: Sized {
    spec fn model(&self) -> StreamModel;

    /// A stream of the default capacity and the default size limit.
    fn new() -> (s: Self)
        ensures
            s.model() == StreamModel::empty(
                DEFAULT_BUFFER_MIN_SIZE as nat,
                DEFAULT_BUFFER_MAX_SIZE as nat,
            ),
            s.model().wf(),
    ;

    /// A stream of the given capacity and the default size limit.
    fn with_capacity(capacity: usize) -> (s: Self)
        ensures
            s.model() == StreamModel::empty(capacity as nat, DEFAULT_BUFFER_MAX_SIZE as nat),
            s.model().wf(),
    ;

    fn is_empty(&self) -> (r: bool)
        requires
            self.model().wf(),
        ensures
            r == (self.model().len() == 0),
            r == (self.model().tail == self.model().head),
    {
        self.len() == 0
    }

    fn is_full(&self) -> (r: bool)
        requires
            self.model().wf(),
        ensures
            r == (self.model().max_size == self.model().len()),
            r == (self.model().max_size == self.model().tail - self.model().head),
    {
        self.max_size() == self.len()
    }

    /// How many more bytes the size limit admits.
    fn limit(&self) -> (r: usize)
        requires
            self.model().wf(),
            self.model().len() <= self.model().max_size,
        ensures
            r == self.model().max_size - self.model().len(),
            r == self.model().max_size - (self.model().tail - self.model().head),
    {
        self.max_size() - self.len()
    }

    /// How many bytes fit behind the tail.
    fn vacant_len(&self) -> (r: usize)
        requires
            self.model().wf(),
        ensures
            r == self.model().capacity() - self.model().tail,
    {
        self.capacity() - self.tail()
    }

    /// Number of readable bytes.
    fn len(&self) -> (r: usize)
        requires
            self.model().wf(),
        ensures
            r == self.model().len(),
            r == self.model().tail - self.model().head,
    {
        self.tail() - self.head()
    }

    fn max_size(&self) -> (r: usize)
        ensures
            r == self.model().max_size,
    ;

    fn tail(&self) -> (r: usize)
        ensures
            r == self.model().tail,
    ;

    fn head(&self) -> (r: usize)
        ensures
            r == self.model().head,
    ;

    fn capacity(&self) -> (r: usize)
        ensures
            r == self.model().capacity(),
    ;

    /// Sets the size limit, never below `DEFAULT_BUFFER_MIN_SIZE`.
    fn set_max_size(&mut self, value: usize)
        requires
            old(self).model().wf(),
        ensures
            final(self).model() == old(self).model().with_max_size(
                StreamModel::clamped_max_size(value as nat),
            ),
            final(self).model().wf(),
    ;

    /// Extends the storage by `capacity` bytes, keeping its bytes, head and tail;
    /// does nothing when the extended storage would pass the size limit.
    fn reserve(&mut self, capacity: usize)
        requires
            old(self).model().wf(),
            old(self).model().capacity() + capacity <= usize::MAX,
        ensures
            final(self).model() == old(self).model().reserved(capacity as nat),
            old(self).model().storage.len() + capacity <= old(self).model().max_size ==> {
                &&& final(self).model().storage.len() == old(self).model().storage.len()
                    + capacity
                &&& final(self).model().storage.take(old(self).model().storage.len() as int)
                    == old(self).model().storage
                &&& final(self).model().head == old(self).model().head
                &&& final(self).model().tail == old(self).model().tail
                &&& final(self).model().max_size == old(self).model().max_size
            },
            old(self).model().storage.len() + capacity > old(self).model().max_size ==> final(self).model() == old(self).model(),
            final(self).model().wf(),
    ;

    /// Moves the head to `value` (after the bytes before it were consumed).
    fn remove_front(&mut self, value: usize)
        requires
            old(self).model().wf(),
            value <= old(self).model().tail,
        ensures
            final(self).model() == old(self).model().with_head(value as nat),
            final(self).model().wf(),
    ;

    /// Moves the tail to `value` (after bytes were placed in the storage).
    fn set_len(&mut self, value: usize)
        requires
            old(self).model().wf(),
            old(self).model().head <= value <= old(self).model().capacity(),
        ensures
            final(self).model() == old(self).model().with_tail(value as nat),
            final(self).model().wf(),
    ;
}

/// Reading access to a buffered stream.
pub trait BufferedStreamReader: BufferedStreamBase {
    /// Copies the first `len` readable bytes into `buf` and consumes them.
    fn read(&mut self, buf: &mut [u8], len: usize) -> (r: Option<usize>)
        requires
            old(self).model().wf(),
        ensures
            final(self).model().wf(),
            r is Some <==> old(self).model().can_peek(old(buf)@.len(), len as nat),
            r is Some <==> (len <= old(self).model().tail - old(self).model().head && len <= old(buf)@.len()),
            r is Some ==> {
                &&& r == Some(len)
                &&& final(buf)@ == old(self).model().contents().take(len as int) + old(buf)@.skip(len as int)
                &&& final(self).model() == old(self).model().with_head(
                    (old(self).model().head + len) as nat,
                )
            },
            r is None ==> final(buf)@ == old(buf)@ && final(self).model() == old(self).model(),
    ;

    /// Copies the first `len` readable bytes into `buf`, leaving them readable.
    fn peek(&self, buf: &mut [u8], len: usize) -> (r: Option<usize>)
        requires
            self.model().wf(),
        ensures
            r is Some <==> self.model().can_peek(old(buf)@.len(), len as nat),
            r is Some <==> (len <= self.model().tail - self.model().head && len <= old(buf)@.len()),
            r is Some ==> r == Some(len) && final(buf)@ == self.model().contents().take(
                len as int,
            ) + old(buf)@.skip(len as int),
            r is None ==> final(buf)@ == old(buf)@,
    ;

    /// The bytes `storage[pos..pos + len]`, if they are all readable.
    fn as_slice(&self, pos: usize, len: usize) -> (r: Option<&[u8]>)
        requires
            self.model().wf(),
            pos + len <= usize::MAX,
        ensures
            r is Some <==> self.model().readable_range(pos as nat, len as nat),
            r is Some <==> (self.model().head <= pos && pos + len <= self.model().tail),
            r matches Some(s) ==> s@ == self.model().contents().subrange(
                pos - self.model().head,
                pos + len - self.model().head,
            ),
            r matches Some(s) ==> s@ == self.model().storage.subrange(pos as int, pos + len),
    ;
}

/// Writing access to a buffered stream.
pub trait BufferedStreamWriter: BufferedStreamBase {
    /// Appends `buf` to the readable bytes, moving them to the front of the
    /// storage or to larger storage when there is no room behind the tail.
    fn write(&mut self, buf: &[u8]) -> (r: Option<usize>)
        requires
            old(self).model().wf(),
            old(self).model().write_defined(buf@.len()),
        ensures
            final(self).model().wf(),
            r is None <==> old(self).model().write_refused(buf@.len()),
            r is None <==> (old(self).model().storage.len() < old(self).model().tail + buf@.len()
                && old(self).model().max_size < old(self).model().tail - old(self).model().head
                + buf@.len()),
            r is Some ==> final(self).model().storage.subrange(
                final(self).model().head as int,
                final(self).model().tail as int,
            ) == old(self).model().storage.subrange(
                old(self).model().head as int,
                old(self).model().tail as int,
            ) + buf@,
            r is Some ==> r == Some(buf.len()) && final(self).model() == old(self).model().after_write(buf@),
            r is None ==> final(self).model() == old(self).model(),
    ;

    /// Mutable access to `storage[pos..pos + len]`, if it lies in the storage.
    fn as_slice_mut(&mut self, pos: usize, len: usize) -> (r: Option<&mut [u8]>)
        requires
            old(self).model().wf(),
            pos + len <= usize::MAX,
        ensures
            r is Some <==> old(self).model().storage_range(pos as nat, len as nat),
            r is Some <==> pos + len <= old(self).model().storage.len(),
            r matches Some(s) ==> {
                &&& s@ == old(self).model().storage.subrange(pos as int, pos + len)
                &&& final(self).model() == StreamModel {
                    storage: old(self).model().storage.take(pos as int) + final(s)@ + old(self).model().storage.skip(pos + len),
                    ..old(self).model()
                }
            },
            r is None ==> final(self).model() == old(self).model(),
    ;
}

} // verus!
