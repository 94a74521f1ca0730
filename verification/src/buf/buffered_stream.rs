use vstd::prelude::*;

use super::base::{
    doubling_fits, growth_gap, lemma_required_capacity_bounds, required_capacity, zeros, BufferedStreamBase,
    BufferedStreamReader, BufferedStreamWriter, StreamModel,
};
use super::constant::{DEFAULT_BUFFER_MAX_SIZE, DEFAULT_BUFFER_MIN_SIZE};

verus! {

/// A byte stream over contiguous storage: bytes are appended at the tail and
/// consumed from the head; when the tail reaches the end of the storage, the
/// readable bytes are moved to the front or to larger storage.
pub struct BufferedStream {
    storage: Vec<u8>,
    head: usize,
    tail: usize,
    max_size: usize,
}

/// Zeroed storage of `n` bytes.
fn zeroed(n: usize) -> (v: Vec<u8>)
    ensures
        v@ == zeros(n as nat),
{
    let mut v: Vec<u8> = Vec::with_capacity(n);
    let mut i: usize = 0;
    while i < n
        invariant
            i <= n,
            v@ == zeros(i as nat),
        decreases n - i,
    {
        v.push(0u8);
        i = i + 1;
        assert(v@ =~= zeros(i as nat));
    }
    v
}

impl BufferedStreamBase for BufferedStream {
    closed spec fn model(&self) -> StreamModel {
        StreamModel {
            storage: self.storage@,
            head: self.head as nat,
            tail: self.tail as nat,
            max_size: self.max_size as nat,
        }
    }

    fn new() -> (s: Self) {
        Self::new_in(DEFAULT_BUFFER_MIN_SIZE)
    }

    fn with_capacity(capacity: usize) -> (s: Self) {
        Self::new_in(capacity)
    }

    fn capacity(&self) -> (r: usize) {
        self.storage.len()
    }

    fn head(&self) -> (r: usize) {
        self.head
    }

    fn tail(&self) -> (r: usize) {
        self.tail
    }

    fn max_size(&self) -> (r: usize) {
        self.max_size
    }

    fn set_max_size(&mut self, value: usize) {
        let max_size = {
            if value < DEFAULT_BUFFER_MIN_SIZE {
                DEFAULT_BUFFER_MIN_SIZE
            } else {
                value
            }
        };
        self.max_size = max_size;
    }

    fn reserve(&mut self, capacity: usize) {
        let cap = self.storage.len() + capacity;
        if cap > self.max_size {
            return ;
        }
        let mut storage = zeroed(cap);
        let old_cap = self.storage.len();
        let mut i: usize = 0;
        while i < old_cap
            invariant
                old_cap == self.storage@.len(),
                cap == old_cap + capacity,
                i <= old_cap,
                storage@.len() == cap,
                forall|j: int| 0 <= j < i ==> storage@[j] == self.storage@[j],
                forall|j: int| i <= j < cap ==> storage@[j] == 0u8,
            decreases old_cap - i,
        {
            storage[i] = self.storage[i];
            i = i + 1;
        }
        assert(storage@ =~= self.storage@ + zeros(capacity as nat));
        self.set_ptr(storage);
    }

    fn remove_front(&mut self, value: usize) {
        self.head = value;
    }

    fn set_len(&mut self, value: usize) {
        self.tail = value;
    }
}


impl BufferedStreamReader for BufferedStream {
    fn read(&mut self, buf: &mut [u8], len: usize) -> (r: Option<usize>) {
        let result = self.peek(buf, len)?;
        self.set_head(self.head + len);
        Some(result)
    }

    fn peek(&self, buf: &mut [u8], len: usize) -> (r: Option<usize>) {
        if len > self.len() || buf.len() < len {
            return None;
        }
        let head = self.head;
        let mut i: usize = 0;
        while i < len
            invariant
                self.model().wf(),
                head == self.model().head,
                len <= self.model().len(),
                len <= old(buf)@.len(),
                i <= len,
                buf@.len() == old(buf)@.len(),
                forall|j: int| 0 <= j < i ==> buf@[j] == self.storage@[head + j],
                forall|j: int| i <= j < buf@.len() ==> buf@[j] == old(buf)@[j],
            decreases len - i,
        {
            buf[i] = self.storage[head + i];
            i = i + 1;
        }
        assert(buf@ =~= self.model().contents().take(len as int) + old(buf)@.skip(len as int));
        Some(len)
    }

    fn as_slice(&self, pos: usize, len: usize) -> (r: Option<&[u8]>) {
        if self.head > pos || self.tail < pos + len {
            return None;
        }
        let result = vstd::slice::slice_subrange(self.storage.as_slice(), pos, pos + len);
        Some(result)
    }
}

impl BufferedStreamWriter for BufferedStream {
    fn write(&mut self, buf: &[u8]) -> (r: Option<usize>) {
        let ghost start = self.model();
        let n = buf.len();
        if self.storage.len() - self.tail < n {
            self.handle_grow(n)?;
        }
        let tail = self.tail;
        let ghost before = self.model();
        assert(tail + n <= self.storage@.len());
        let mut i: usize = 0;
        while i < n
            invariant
                n == buf@.len(),
                tail == self.tail,
                tail + n <= self.storage@.len(),
                self.storage@.len() <= usize::MAX,
                self.storage@.len() == before.storage.len(),
                before == (StreamModel { storage: before.storage, ..self.model() }),
                i <= n,
                forall|j: int| 0 <= j < tail ==> self.storage@[j] == before.storage[j],
                forall|j: int| 0 <= j < i ==> self.storage@[tail + j] == buf@[j],
                forall|j: int|
                    tail + i <= j < self.storage@.len() ==> self.storage@[j] == before.storage[j],
            decreases n - i,
        {
            self.storage[tail + i] = buf[i];
            i = i + 1;
        }
        assert(self.storage@ =~= before.storage.take(tail as int) + buf@ + before.storage.skip(
            tail + n,
        ));
        self.set_tail(tail + n);
        proof {
            let m = start;
            if m.fits(n as nat) {
                assert(self.model() =~= m.after_write(buf@));
            } else if m.needs_grow(n as nat) {
                lemma_required_capacity_bounds(m.capacity(), m.capacity() + n as nat, m.max_size);
                let rest = (m.grown_capacity(n as nat) - m.len()) as nat;
                assert(before.storage == m.contents() + zeros(rest));
                assert(before.storage.take(tail as int) =~= m.contents());
                assert(before.storage.skip(tail + n) =~= zeros((rest - n) as nat));
                assert(self.model().storage =~= m.after_write(buf@).storage);
            } else {
                assert(before.storage == m.contents() + m.storage.skip(m.len() as int));
                assert(before.storage.take(tail as int) =~= m.contents());
                assert(before.storage.skip(tail + n) =~= m.storage.skip(m.len() + n));
                assert(self.model().storage =~= m.after_write(buf@).storage);
            }
        }
        Some(n)
    }

    fn as_slice_mut(&mut self, pos: usize, len: usize) -> (r: Option<&mut [u8]>) {
        if self.storage.len() < pos + len {
            return None;
        }
        let whole = self.storage.as_mut_slice();
        let (_, rest) = whole.split_at_mut(pos);
        let (part, _) = rest.split_at_mut(len);
        Some(part)
    }
}

impl BufferedStream {

    /// Makes room for `len` more bytes: moves the readable bytes to larger
    /// storage when the storage cannot hold them and `len` more, else to the
    /// front of the storage; refuses when the size limit leaves no room.
    fn handle_grow(&mut self, len: usize) -> (r: Option<()>)
        requires
            old(self).model().wf(),
            old(self).model().len() <= old(self).model().max_size,
            old(self).model().capacity() < old(self).model().len() + len
                && old(self).model().len() + len <= old(self).model().max_size ==> {
                &&& old(self).model().capacity() > 0
                &&& old(self).model().capacity() + len <= usize::MAX
                &&& doubling_fits(
                    old(self).model().capacity(),
                    old(self).model().capacity() + len as nat,
                    old(self).model().max_size,
                )
            },
        ensures
            final(self).model().wf(),
            r is None <==> old(self).model().max_size < old(self).model().len() + len,
            r is None ==> final(self).model() == old(self).model(),
            r is Some ==> final(self).model().len() + len <= final(self).model().capacity(),
            r is Some ==> final(self).model().contents() == old(self).model().contents(),
            r is Some ==> final(self).model().head == 0,
            r is Some ==> final(self).model().max_size == old(self).model().max_size,
            r is Some && old(self).model().capacity() < old(self).model().len() + len ==> final(self).model().storage == old(self).model().contents() + zeros(
                (required_capacity(
                    old(self).model().capacity(),
                    old(self).model().capacity() + len as nat,
                    old(self).model().max_size,
                ) - old(self).model().len()) as nat,
            ),
            r is Some && old(self).model().capacity() >= old(self).model().len() + len ==> final(self).model().storage == old(self).model().contents() + old(self).model().storage.skip(
                old(self).model().len() as int,
            ),
    {
        if self.limit() < len {
            return None;
        }
        proof {
            if self.storage@.len() > 0 {
                lemma_required_capacity_bounds(
                    self.storage@.len(),
                    self.storage@.len() + len as nat,
                    self.max_size as nat,
                );
            }
        }
        if self.storage.len() - self.len() < len {
            self.grow(len);
        } else {
            self.compaction();
        }
        Some(())
    }

    /// Moves the readable bytes to the front of new storage of the capacity
    /// that the growth policy picks for `len` more bytes.
    fn grow(&mut self, len: usize)
        requires
            old(self).model().wf(),
            old(self).model().len() <= old(self).model().max_size,
            old(self).model().capacity() > 0 || len == 0,
            old(self).model().capacity() + len <= usize::MAX,
            doubling_fits(
                old(self).model().capacity(),
                old(self).model().capacity() + len as nat,
                old(self).model().max_size,
            ),
        ensures
            final(self).model() == (StreamModel {
                storage: old(self).model().contents() + zeros(
                    (required_capacity(
                        old(self).model().capacity(),
                        old(self).model().capacity() + len as nat,
                        old(self).model().max_size,
                    ) - old(self).model().len()) as nat,
                ),
                head: 0,
                tail: old(self).model().len(),
                max_size: old(self).model().max_size,
            }),
            final(self).model().wf(),
    {
        let cap = self.required_capacity(len);
        proof {
            if self.storage@.len() > 0 {
                lemma_required_capacity_bounds(
                    self.storage@.len(),
                    self.storage@.len() + len as nat,
                    self.max_size as nat,
                );
            }
        }
        let mut storage = zeroed(cap);
        let head = self.head;
        let count = self.len();
        let mut i: usize = 0;
        while i < count
            invariant
                self.model().wf(),
                head == self.head,
                count == self.tail - self.head,
                count <= cap,
                storage@.len() == cap,
                i <= count,
                forall|j: int| 0 <= j < i ==> storage@[j] == self.storage@[head + j],
                forall|j: int| i <= j < cap ==> storage@[j] == 0u8,
            decreases count - i,
        {
            storage[i] = self.storage[head + i];
            i = i + 1;
        }
        assert(storage@ =~= self.model().contents() + zeros((cap - count) as nat));
        self.set_ptr(storage);
        self.set_tail(count);
        self.set_head(0);
    }

    /// Moves the readable bytes to the front of the storage.
    fn compaction(&mut self)
        requires
            old(self).model().wf(),
        ensures
            final(self).model() == (StreamModel {
                storage: old(self).model().contents() + old(self).model().storage.skip(
                    old(self).model().len() as int,
                ),
                head: 0,
                tail: old(self).model().len(),
                max_size: old(self).model().max_size,
            }),
            final(self).model().wf(),
    {
        let ghost before = self.storage@;
        let head = self.head;
        let count = self.len();
        let mut i: usize = 0;
        while i < count
            invariant
                head == self.head,
                count == self.tail - self.head,
                self.tail == old(self).tail,
                self.max_size == old(self).max_size,
                self.tail <= before.len(),
                self.storage@.len() == before.len(),
                i <= count,
                forall|j: int| 0 <= j < i ==> self.storage@[j] == before[head + j],
                forall|j: int| i <= j < before.len() ==> self.storage@[j] == before[j],
            decreases count - i,
        {
            let b = self.storage[head + i];
            self.storage[i] = b;
            i = i + 1;
        }
        assert(self.storage@ =~= before.subrange(head as int, head + count) + before.skip(
            count as int,
        ));
        self.set_tail(count);
        self.set_head(0);
    }

    /// The capacity the growth policy picks for `len` more bytes: double the
    /// capacity until it covers the current capacity and `len`, stopping at
    /// the size limit.
    fn required_capacity(&self, len: usize) -> (r: usize)
        requires
            self.storage@.len() > 0 || len == 0,
            self.storage@.len() + len <= usize::MAX,
            doubling_fits(self.storage@.len(), self.storage@.len() + len as nat, self.max_size as nat),
        ensures
            r == required_capacity(
                self.storage@.len(),
                self.storage@.len() + len as nat,
                self.max_size as nat,
            ),
    {
        let required_cap = self.storage.len() + len;
        let mut cap = self.storage.len();
        let ghost target = required_capacity(
            self.storage@.len(),
            self.storage@.len() + len as nat,
            self.max_size as nat,
        );
        while cap < required_cap
            invariant_except_break
                cap > 0 || cap >= required_cap,
                doubling_fits(cap as nat, required_cap as nat, self.max_size as nat),
                required_capacity(cap as nat, required_cap as nat, self.max_size as nat)
                    == target,
            invariant
                required_cap == self.storage@.len() + len,
            ensures
                cap == target,
            decreases growth_gap(cap as nat, required_cap as nat),
        {
            cap = cap * 2;
            if cap > self.max_size {
                cap = self.max_size;
                break;
            }
        }
        cap
    }
    fn new_in(capacity: usize) -> (s: Self)
        ensures
            s.model() == StreamModel::empty(capacity as nat, DEFAULT_BUFFER_MAX_SIZE as nat),
            s.model().wf(),
    {
        let storage = zeroed(capacity);
        Self { storage, head: 0, tail: 0, max_size: DEFAULT_BUFFER_MAX_SIZE }
    }

    fn set_head(&mut self, value: usize)
        ensures
            final(self).model() == old(self).model().with_head(value as nat),
    {
        self.head = value;
    }

    fn set_tail(&mut self, value: usize)
        ensures
            final(self).model() == old(self).model().with_tail(value as nat),
    {
        self.tail = value;
    }

    /// Replaces the storage.
    fn set_ptr(&mut self, storage: Vec<u8>)
        ensures
            final(self).model() == (StreamModel { storage: storage@, ..old(self).model() }),
    {
        self.storage = storage;
    }
}

} // verus!
