use vstd::prelude::*;

use super::base::{lemma_required_capacity_bounds, StreamModel};
use super::constant::DEFAULT_BUFFER_MIN_SIZE;

verus! {

/// An accepted write appends exactly the written bytes to the readable bytes,
/// keeps the stream well formed and the size limit unchanged, and leaves room
/// for them: the storage then holds at least the readable bytes, and it grows
/// past its old capacity only up to the size limit.
pub proof fn lemma_write_appends(m: StreamModel, data: Seq<u8>)
    requires
        m.wf(),
        m.write_defined(data.len()),
        !m.write_refused(data.len()),
    ensures
        m.after_write(data).wf(),
        m.after_write(data).contents() == m.contents() + data,
        m.after_write(data).max_size == m.max_size,
        m.after_write(data).len() == m.len() + data.len(),
        m.after_write(data).capacity() <= m.capacity() || m.after_write(data).capacity()
            <= m.max_size,
{
    let n = data.len();
    let r = m.after_write(data);
    if m.fits(n) {
        assert(r.contents() =~= m.contents() + data);
    } else if m.needs_grow(n) {
        lemma_required_capacity_bounds(m.capacity(), m.capacity() + n, m.max_size);
        assert(r.contents() =~= m.contents() + data);
    } else {
        assert(r.contents() =~= m.contents() + data);
    }
}

/// Consuming `k` readable bytes leaves the readable bytes after them; the
/// bytes consumed are the ones `as_slice(head, k)` shows.
pub proof fn lemma_consume_prefix(m: StreamModel, k: nat)
    requires
        m.wf(),
        k <= m.len(),
    ensures
        m.readable_range(m.head, k),
        m.storage.subrange(m.head as int, (m.head + k) as int) == m.contents().take(k as int),
        m.with_head(m.head + k).wf(),
        m.with_head(m.head + k).contents() == m.contents().skip(k as int),
        m.contents().take(k as int) + m.with_head(m.head + k).contents() == m.contents(),
{
    assert(m.storage.subrange(m.head as int, (m.head + k) as int) =~= m.contents().take(k as int));
    assert(m.with_head(m.head + k).contents() =~= m.contents().skip(k as int));
    assert(m.contents().take(k as int) + m.contents().skip(k as int) =~= m.contents());
}

/// Bytes placed right behind the tail through `as_slice_mut` and then
/// published by moving the tail past them with `set_len` are appended to the
/// readable bytes.
pub proof fn lemma_place_then_publish(m: StreamModel, placed: Seq<u8>)
    requires
        m.wf(),
        m.storage_range(m.tail, placed.len()),
    ensures
        ({
            let filled = StreamModel {
                storage: m.storage.take(m.tail as int) + placed + m.storage.skip((m.tail + placed.len()) as int),
                ..m
            };
            &&& filled.wf()
            &&& filled.contents() == m.contents()
            &&& filled.with_tail(m.tail + placed.len()).wf()
            &&& filled.with_tail(m.tail + placed.len()).contents() == m.contents() + placed
        }),
{
    let filled = StreamModel {
        storage: m.storage.take(m.tail as int) + placed + m.storage.skip((m.tail + placed.len()) as int),
        ..m
    };
    assert(filled.contents() =~= m.contents());
    assert(filled.with_tail(m.tail + placed.len()).contents() =~= m.contents() + placed);
}

/// First in, first out: after `data` is written to a stream that holds
/// `before`, reading `k` bytes yields the first `k` bytes of `before + data`
/// and leaves the rest readable; reading everything yields `before + data`.
pub proof fn lemma_read_after_write(m: StreamModel, data: Seq<u8>, k: nat)
    requires
        m.wf(),
        m.write_defined(data.len()),
        !m.write_refused(data.len()),
        k <= m.len() + data.len(),
    ensures
        m.after_write(data).contents().take(k as int) == (m.contents() + data).take(k as int),
        m.after_write(data).with_head(m.after_write(data).head + k).contents() == (m.contents()
            + data).skip(k as int),
{
    lemma_write_appends(m, data);
    lemma_consume_prefix(m.after_write(data), k);
}

/// A stream whose storage is within its size limit stays so through accepted
/// writes, consuming reads and extensions of its storage: only raising the
/// storage past the limit by `with_capacity` or lowering the limit by
/// `set_max_size` can leave it.
pub proof fn lemma_within_limit_kept(m: StreamModel, data: Seq<u8>, k: nat, extra: nat)
    requires
        m.wf(),
        m.within_limit(),
    ensures
        m.write_defined(data.len()) && !m.write_refused(data.len()) ==> m.after_write(
            data,
        ).within_limit(),
        k <= m.len() ==> m.with_head(m.head + k).within_limit(),
        m.capacity() + extra <= usize::MAX ==> m.reserved(extra).within_limit(),
{
    let n = data.len();
    if m.write_defined(n) && !m.write_refused(n) && m.needs_grow(n) {
        lemma_required_capacity_bounds(m.capacity(), m.capacity() + n, m.max_size);
        assert(m.after_write(data).capacity() == m.grown_capacity(n));
    }
}

/// A refused write is one that not even moving the readable bytes to the front
/// or to storage up to the size limit could make room for.
pub proof fn lemma_write_refused_means_no_room(m: StreamModel, n: nat)
    requires
        m.wf(),
        m.len() <= m.max_size,
    ensures
        m.write_refused(n) <==> (m.capacity() - m.tail < n && m.max_size - m.len() < n),
{
}

/// Extending the storage keeps the readable bytes, the head and the tail.
pub proof fn lemma_reserve_keeps_contents(m: StreamModel, extra: nat)
    requires
        m.wf(),
        m.capacity() + extra <= usize::MAX,
    ensures
        m.reserved(extra).wf(),
        m.reserved(extra).contents() == m.contents(),
        m.reserved(extra).head == m.head,
        m.reserved(extra).tail == m.tail,
{
    assert(m.reserved(extra).contents() =~= m.contents());
}

/// The size limit that `set_max_size` sets is never below the floor, and any
/// request at or above the floor is taken as it is.
pub proof fn lemma_max_size_floor(value: nat)
    ensures
        StreamModel::clamped_max_size(value) >= DEFAULT_BUFFER_MIN_SIZE,
        value >= DEFAULT_BUFFER_MIN_SIZE ==> StreamModel::clamped_max_size(value) == value,
{
}

/// A peek or read of `len` bytes into a buffer of `buf_len` bytes is served
/// exactly when that many bytes are readable and the buffer holds them.
pub proof fn lemma_peek_accepts(m: StreamModel, buf_len: nat, len: nat)
    requires
        m.wf(),
    ensures
        m.can_peek(buf_len, len) <==> (len + m.head <= m.tail && len <= buf_len),
{
}

/// `as_slice(pos, len)` is served exactly when every byte of
/// `storage[pos..pos + len]` is readable, and then shows those readable bytes.
pub proof fn lemma_slice_within_readable(m: StreamModel, pos: nat, len: nat)
    requires
        m.wf(),
    ensures
        m.readable_range(pos, len) <==> (m.head <= pos && pos + len <= m.tail),
        m.readable_range(pos, len) ==> forall|i: int|
            0 <= i < len ==> #[trigger] m.storage[pos + i] == m.contents()[pos - m.head + i],
{
}

/// `as_slice_mut(pos, len)` is served for every range inside the storage and
/// for no other.
pub proof fn lemma_storage_range_is_the_storage(m: StreamModel, pos: nat, len: nat)
    ensures
        m.storage_range(pos, len) <==> pos + len <= m.storage.len(),
{
}

/// Extending the storage by `extra` bytes within the size limit makes it
/// exactly `extra` bytes longer and keeps every byte, the head, the tail and
/// the limit; past the limit it changes nothing.
pub proof fn lemma_reserve_extends(m: StreamModel, extra: nat)
    ensures
        m.storage.len() + extra <= m.max_size ==> {
            &&& m.reserved(extra).storage.len() == m.storage.len() + extra
            &&& forall|i: int|
                0 <= i < m.storage.len() ==> #[trigger] m.reserved(extra).storage[i]
                    == m.storage[i]
            &&& m.reserved(extra).head == m.head
            &&& m.reserved(extra).tail == m.tail
            &&& m.reserved(extra).max_size == m.max_size
        },
        m.storage.len() + extra > m.max_size ==> m.reserved(extra) == m,
{
}

} // verus!
