//! Persisting a stream in chunks.
use crate::sync::error::SyncError;
use crate::sync::stream::{Items, SyncResult, SyncStream};
use vstd::prelude::*;

verus! {

/// What to do with a stream that is persisted in chunks.
pub enum ChunkAction<T> {
    /// Take the next item.
    Wait,
    /// Persist a full chunk, then take the next item.
    Persist(Vec<T>),
    /// Stop: the stream has failed. What was not persisted is dropped.
    Fail(SyncError),
}

/// Collects the items of a stream into chunks.
pub struct Chunks<T> {
    capacity: usize,
    buffer: Vec<T>,
}

impl<T> Chunks<T> {
    #[verifier::type_invariant]
    spec fn well_formed(self) -> bool {
        self.buffer@.len() < self.capacity
    }

    /// The length of a full chunk.
    pub closed spec fn capacity(self) -> nat {
        self.capacity as nat
    }

    /// The items that wait for the chunk to be full.
    pub closed spec fn waiting(self) -> Seq<T> {
        self.buffer@
    }

    /// Starts with an empty chunk.
    pub fn new(capacity: usize) -> (r: Chunks<T>)
        requires
            capacity > 0,
        ensures
            r.capacity() == capacity,
            r.waiting() == Seq::<T>::empty(),
    {
        Chunks { capacity, buffer: Vec::new() }
    }

    /// Takes an item.
    pub fn push(&mut self, item: SyncResult<T>) -> (r: ChunkAction<T>)
        ensures
            final(self).capacity() == old(self).capacity(),
            old(self).waiting().len() < old(self).capacity(),
            match item {
                Ok(item) => {
                    let chunk = old(self).waiting().push(item);
                    if chunk.len() == old(self).capacity() {
                        r matches ChunkAction::Persist(items) && items@ == chunk && final(self).waiting() == Seq::<
                            T,
                        >::empty()
                    } else {
                        r is Wait && final(self).waiting() == chunk
                    }
                },
                Err(e) => r == ChunkAction::<T>::Fail(e) && final(self).waiting() == Seq::<T>::empty(),
            },
    {
        proof {
            use_type_invariant(&*self);
        }
        let capacity: usize = self.capacity;
        let mut taken: Chunks<T> = Chunks::new(capacity);
        std::mem::swap(&mut taken, self);
        let mut buffer: Vec<T> = taken.buffer;
        match item {
            Ok(item) => {
                buffer.push(item);
                if buffer.len() == capacity {
                    ChunkAction::Persist(buffer)
                } else {
                    *self = Chunks { capacity, buffer };
                    ChunkAction::Wait
                }
            },
            Err(e) => ChunkAction::Fail(e),
        }
    }

    /// The last chunk of a stream that has ended. It may be shorter than the others, but not
    /// empty.
    pub fn finish(self) -> (r: Option<Vec<T>>)
        ensures
            match r {
                Some(items) => items@ == self.waiting() && items@.len() > 0,
                None => self.waiting().len() == 0,
            },
    {
        if self.buffer.len() > 0 {
            Some(self.buffer)
        } else {
            None
        }
    }
}

/// What a stream is cut into.
pub struct Chunked<T> {
    /// The chunks, in the order in which they are persisted.
    pub chunks: Vec<Vec<T>>,
    /// Why the stream failed, if it did.
    pub failure: Option<SyncError>,
}

/// All items of chunks, one after the other.
pub open spec fn joined<T>(chunks: Seq<Vec<T>>) -> Seq<T>
    decreases chunks.len(),
{
    if chunks.len() == 0 {
        Seq::empty()
    } else {
        joined(chunks.drop_last()) + chunks.last()@
    }
}

/// The number of items before the first failure.
pub open spec fn good_items<T>(items: Seq<SyncResult<T>>) -> nat
    decreases items.len(),
{
    if items.len() == 0 || items[0] is Err {
        0
    } else {
        1 + good_items(items.drop_first())
    }
}

/// The items before the first failure.
pub open spec fn good_prefix<T>(items: Seq<SyncResult<T>>) -> Seq<T> {
    Seq::new(good_items(items), |i: int| items[i]->Ok_0)
}

impl<T> Chunked<T> {
    /// Whether a stream is cut into these chunks. The chunks are full, except for the last one
    /// of a stream that did not fail, and hold the items before the first failure in order. Only
    /// where the stream failed, less than a chunk of these items is missing.
    pub open spec fn cuts(self, items: Seq<SyncResult<T>>, capacity: nat) -> bool {
        let n = good_items(items);
        let kept = joined(self.chunks@);
        &&& kept == good_prefix(items).take(kept.len() as int)
        &&& kept.len() <= n < kept.len() + capacity
        &&& match self.failure {
            Some(e) => n < items.len() && items[n as int] == Err::<T, _>(e),
            None => n == items.len() && kept.len() == n,
        }
        &&& forall|i: int|
            0 <= i < self.chunks@.len() ==> {
                ||| (#[trigger] self.chunks@[i])@.len() == capacity
                ||| self.failure is None && i == self.chunks@.len() - 1 && 0 < self.chunks@[i]@.len() < capacity
            }
    }
}

/// What is known of the items that were taken from a stream.
proof fn lemma_good_items<T>(items: Seq<SyncResult<T>>, n: nat)
    requires
        n <= items.len(),
        forall|i: int| 0 <= i < n ==> (#[trigger] items[i]) is Ok,
        n < items.len() ==> items[n as int] is Err,
    ensures
        good_items(items) == n,
    decreases n,
{
    if n > 0 {
        let rest = items.drop_first();
        assert(items[0] is Ok);
        assert forall|i: int| 0 <= i < n - 1 implies (#[trigger] rest[i]) is Ok by {
            assert(rest[i] == items[i + 1]);
        }
        if n < items.len() {
            assert(rest[n - 1] == items[n as int]);
        }
        lemma_good_items(rest, (n - 1) as nat);
    }
}

/// Cuts a stream into chunks.
pub fn cut<T>(stream: Items<T>, capacity: usize) -> (r: Chunked<T>)
    requires
        capacity > 0,
    ensures
        r.cuts(stream.remaining(), capacity as nat),
{
    let ghost items = stream.remaining();
    let mut rest = stream;
    let mut pending: Chunks<T> = Chunks::new(capacity);
    let mut chunks: Vec<Vec<T>> = Vec::new();
    let ghost mut n: nat = 0;
    let ghost mut taken: Seq<T> = Seq::empty();
    assert(rest.remaining() =~= items.skip(0));
    assert(joined(chunks@) + pending.waiting() =~= taken);
    loop
        invariant
            capacity > 0,
            items == stream.remaining(),
            n <= items.len(),
            taken.len() == n,
            rest.remaining() == items.skip(n as int),
            pending.capacity() == capacity,
            pending.waiting().len() < capacity,
            joined(chunks@) + pending.waiting() == taken,
            forall|i: int| 0 <= i < n ==> (#[trigger] items[i]) is Ok,
            forall|i: int| 0 <= i < n ==> #[trigger] taken[i] == items[i]->Ok_0,
            forall|i: int| 0 <= i < chunks@.len() ==> (#[trigger] chunks@[i])@.len() == capacity,
        decreases items.len() - n,
    {
        let ghost before = pending.waiting();
        match rest.next() {
            Some(item) => {
                let ghost current = item;
                assert(items.skip(n as int)[0] == items[n as int]);
                match pending.push(item) {
                    ChunkAction::Wait => {
                        proof {
                            let value = current->Ok_0;
                            assert(joined(chunks@) + before.push(value) =~= taken.push(value));
                            taken = taken.push(value);
                        }
                    },
                    ChunkAction::Persist(chunk) => {
                        let ghost full = chunks@;
                        chunks.push(chunk);
                        proof {
                            let value = current->Ok_0;
                            assert(chunks@.drop_last() =~= full);
                            assert(joined(full) + before.push(value) =~= taken.push(value));
                            assert(joined(chunks@) + Seq::empty() =~= joined(chunks@));
                            taken = taken.push(value);
                        }
                    },
                    ChunkAction::Fail(e) => {
                        proof {
                            lemma_good_items(items, n);
                            assert(good_prefix(items) =~= taken);
                            assert(taken.take(joined(chunks@).len() as int) =~= joined(chunks@));
                        }
                        return Chunked { chunks, failure: Some(e) };
                    },
                }
                proof {
                    assert(items.skip(n as int).drop_first() =~= items.skip(n as int + 1));
                    n = n + 1;
                }
            },
            None => {
                proof {
                    lemma_good_items(items, n);
                    assert(good_prefix(items) =~= taken);
                }
                let ghost full = chunks@;
                match pending.finish() {
                    Some(chunk) => {
                        chunks.push(chunk);
                        proof {
                            assert(chunks@.drop_last() =~= full);
                            assert(joined(chunks@) =~= taken);
                        }
                    },
                    None => {
                        assert(joined(chunks@) =~= taken);
                    },
                }
                assert(taken.take(taken.len() as int) =~= taken);
                return Chunked { chunks, failure: None };
            },
        }
    }
}

/// How many items before the first failure there are, told by the items.
pub proof fn lemma_good_items_come_first<T>(items: Seq<SyncResult<T>>)
    ensures
        good_items(items) <= items.len(),
        forall|i: int| 0 <= i < good_items(items) ==> (#[trigger] items[i]) is Ok,
        good_items(items) < items.len() ==> items[good_items(items) as int] is Err,
    decreases items.len(),
{
    if items.len() > 0 && items[0] is Ok {
        let rest = items.drop_first();
        lemma_good_items_come_first(rest);
        assert forall|i: int| 0 <= i < good_items(items) implies (#[trigger] items[i]) is Ok by {
            if i > 0 {
                assert(rest[i - 1] == items[i]);
            }
        }
        if good_items(items) < items.len() {
            assert(rest[good_items(rest) as int] == items[good_items(items) as int]);
        }
    }
}

/// Where all chunks but the last are full, an item's place among all of them tells its chunk and
/// its place there.
proof fn lemma_joined_by_position<T>(chunks: Seq<Vec<T>>, capacity: nat, k: int, j: int)
    requires
        chunks.len() > 0,
        forall|i: int| 0 <= i < chunks.len() - 1 ==> (#[trigger] chunks[i])@.len() == capacity,
        0 <= k < chunks.len(),
        0 <= j < chunks[k]@.len(),
    ensures
        joined(chunks).len() == (chunks.len() - 1) * capacity + chunks.last()@.len(),
        0 <= k * capacity + j < joined(chunks).len(),
        joined(chunks)[k * capacity + j] == chunks[k]@[j],
    decreases chunks.len(),
{
    let init = chunks.drop_last();
    lemma_joined_len(init, capacity);
    let n = chunks.len() - 1;
    assert(0 <= k * capacity) by (nonlinear_arith)
        requires
            0 <= k,
            0 <= capacity,
    ;
    if k == n {
        assert(joined(chunks)[k * capacity + j] == chunks.last()@[j]);
    } else {
        assert(chunks[k]@.len() == capacity);
        assert(k * capacity + j < n * capacity) by (nonlinear_arith)
            requires
                0 <= k < n,
                j < capacity,
        ;
        assert forall|i: int| 0 <= i < init.len() - 1 implies (#[trigger] init[i])@.len() == capacity by {
            assert(init[i] == chunks[i]);
        }
        assert(init[k] == chunks[k]);
        lemma_joined_by_position(init, capacity, k, j);
    }
}

proof fn lemma_joined_len<T>(chunks: Seq<Vec<T>>, capacity: nat)
    requires
        forall|i: int| 0 <= i < chunks.len() ==> (#[trigger] chunks[i])@.len() == capacity,
    ensures
        joined(chunks).len() == chunks.len() * capacity,
    decreases chunks.len(),
{
    let n = chunks.len();
    if n > 0 {
        let init = chunks.drop_last();
        assert forall|i: int| 0 <= i < init.len() implies (#[trigger] init[i])@.len() == capacity by {
            assert(init[i] == chunks[i]);
        }
        lemma_joined_len(init, capacity);
        assert(chunks[n - 1]@.len() == capacity);
        assert((n - 1) * capacity + capacity == n * capacity) by (nonlinear_arith)
            requires
                n > 0,
        ;
    } else {
        assert(n * capacity == 0) by (nonlinear_arith)
            requires
                n == 0,
        ;
    }
}

/// Each chunk holds the items of the stream in their places: item `j` of chunk `k` is item
/// `k * capacity + j` of the stream, and no item before it has failed.
pub proof fn lemma_chunks_by_position<T>(
    chunked: Chunked<T>,
    items: Seq<SyncResult<T>>,
    capacity: nat,
    k: int,
    j: int,
)
    requires
        chunked.cuts(items, capacity),
        0 <= k < chunked.chunks@.len(),
        0 <= j < chunked.chunks@[k]@.len(),
    ensures
        0 <= k * capacity + j < items.len(),
        items[k * capacity + j] == Ok::<_, SyncError>(chunked.chunks@[k]@[j]),
        forall|i: int| 0 <= i <= k * capacity + j ==> (#[trigger] items[i]) is Ok,
{
    let kept = joined(chunked.chunks@);
    lemma_joined_by_position(chunked.chunks@, capacity, k, j);
    lemma_good_items_come_first(items);
    let at = k * capacity + j;
    assert(kept[at] == good_prefix(items).take(kept.len() as int)[at]);
    assert(items[at] is Ok);
}

/// A stream that does not fail is persisted whole, in full chunks but for the last one. Of one that
/// fails, all full chunks before its first failure are persisted, and the failure is reported.
pub proof fn lemma_chunks_are_all<T>(chunked: Chunked<T>, items: Seq<SyncResult<T>>, capacity: nat)
    requires
        capacity > 0,
        chunked.cuts(items, capacity),
    ensures
        chunked.failure is None <==> forall|i: int| 0 <= i < items.len() ==> (#[trigger] items[i]) is Ok,
        chunked.failure is None ==> joined(chunked.chunks@).len() == items.len(),
        chunked.failure matches Some(e) ==> exists|n: int|
            {
                &&& 0 <= n < items.len()
                &&& #[trigger] items[n] == Err::<T, _>(e)
                &&& forall|i: int| 0 <= i < n ==> (#[trigger] items[i]) is Ok
                &&& chunked.chunks@.len() * capacity <= n < (chunked.chunks@.len() + 1) * capacity
                &&& forall|k: int|
                    0 <= k < chunked.chunks@.len() ==> (#[trigger] chunked.chunks@[k])@.len() == capacity
            },
{
    lemma_good_items_come_first(items);
    let n = good_items(items) as int;
    if chunked.failure is Some {
        assert(items[n] is Err);
        assert forall|k: int| 0 <= k < chunked.chunks@.len() implies (#[trigger] chunked.chunks@[k])@.len()
            == capacity by {}
        lemma_joined_len(chunked.chunks@, capacity);
        let c = chunked.chunks@.len();
        assert((c + 1) * capacity == c * capacity + capacity) by (nonlinear_arith);
    }
}

} // verus!
