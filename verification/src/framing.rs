//! Chunk boundaries of a streamed response.
//!
//! The service ends each chunk of a stream with a line feed, and the
//! network delivers the stream in pieces of any size: a piece may end in
//! the middle of a chunk, or hold several. A [`ChunkBuffer`] takes the
//! pieces as they come, gives out each chunk once it is complete, and
//! keeps what has arrived of the next one. How the stream was cut into
//! pieces makes no difference to the chunks that come out.

use vstd::prelude::*;

verus! {

/// The byte that ends a chunk.
pub const LINE_FEED: u8 = 10;

/// `bytes` holds no line feed.
pub open spec fn unbroken(bytes: Seq<u8>) -> bool {
    forall|i: int| 0 <= i < bytes.len() ==> #[trigger] bytes[i] != LINE_FEED
}

/// What follows the last line feed of `bytes`: the beginning of a chunk
/// whose end has not arrived.
pub open spec fn pending_of(bytes: Seq<u8>) -> Seq<u8>
    decreases bytes.len(),
{
    if bytes.len() == 0 {
        Seq::empty()
    } else if bytes.last() == LINE_FEED {
        Seq::empty()
    } else {
        pending_of(bytes.drop_last()).push(bytes.last())
    }
}

/// The complete chunks of `bytes`, in order: each run of bytes that a
/// line feed ends, but for the empty ones.
pub open spec fn chunks_of(bytes: Seq<u8>) -> Seq<Seq<u8>>
    decreases bytes.len(),
{
    if bytes.len() == 0 {
        Seq::empty()
    } else if bytes.last() == LINE_FEED && pending_of(bytes.drop_last()).len() > 0 {
        chunks_of(bytes.drop_last()).push(pending_of(bytes.drop_last()))
    } else {
        chunks_of(bytes.drop_last())
    }
}

/// The bytes of each of `chunks`, in order.
pub open spec fn contents(chunks: Seq<Vec<u8>>) -> Seq<Seq<u8>> {
    Seq::new(chunks.len(), |i: int| chunks[i]@)
}

/// Bytes without a line feed hold no complete chunk: all of them are
/// pending.
pub proof fn lemma_unbroken_is_pending(bytes: Seq<u8>)
    requires
        unbroken(bytes),
    ensures
        pending_of(bytes) == bytes,
        chunks_of(bytes) == Seq::<Seq<u8>>::empty(),
    decreases bytes.len(),
{
    if bytes.len() > 0 {
        assert(bytes.last() == bytes[bytes.len() - 1]);
        lemma_unbroken_is_pending(bytes.drop_last());
        assert(bytes.drop_last().push(bytes.last()) =~= bytes);
    } else {
        assert(bytes =~= Seq::<u8>::empty());
    }
}

/// What is pending holds no line feed, and no chunk holds one or is
/// empty.
pub proof fn lemma_chunks_are_unbroken(bytes: Seq<u8>)
    ensures
        unbroken(pending_of(bytes)),
        forall|i: int|
            0 <= i < chunks_of(bytes).len() ==> unbroken(#[trigger] chunks_of(bytes)[i])
                && chunks_of(bytes)[i].len() > 0,
    decreases bytes.len(),
{
    if bytes.len() > 0 {
        let shorter = bytes.drop_last();
        lemma_chunks_are_unbroken(shorter);
        assert forall|i: int| 0 <= i < chunks_of(bytes).len() implies unbroken(
            #[trigger] chunks_of(bytes)[i],
        ) && chunks_of(bytes)[i].len() > 0 by {
            if i < chunks_of(shorter).len() {
                assert(chunks_of(bytes)[i] == chunks_of(shorter)[i]);
            }
        }
    }
}

/// However a stream is cut in two, the chunks are the same: those of the
/// first piece, then those of what was pending followed by the second
/// piece. The same holds of what is pending at the end.
pub proof fn lemma_pieces_make_no_difference(first: Seq<u8>, second: Seq<u8>)
    ensures
        chunks_of(first + second) == chunks_of(first) + chunks_of(pending_of(first) + second),
        pending_of(first + second) == pending_of(pending_of(first) + second),
    decreases second.len(),
{
    let kept = pending_of(first);
    if second.len() == 0 {
        assert(first + second =~= first);
        assert(kept + second =~= kept);
        lemma_chunks_are_unbroken(first);
        lemma_unbroken_is_pending(kept);
        assert(chunks_of(first) + Seq::<Seq<u8>>::empty() =~= chunks_of(first));
    } else {
        let shorter = second.drop_last();
        lemma_pieces_make_no_difference(first, shorter);
        assert((first + second).drop_last() =~= first + shorter);
        assert((kept + second).drop_last() =~= kept + shorter);
        assert((first + second).last() == second.last());
        assert((kept + second).last() == second.last());
        let before = chunks_of(kept + shorter);
        if second.last() == LINE_FEED && pending_of(first + shorter).len() > 0 {
            assert(chunks_of(first) + before.push(pending_of(kept + shorter)) =~= (chunks_of(first)
                + before).push(pending_of(kept + shorter)));
        }
    }
}

/// The bytes of a chunk whose end has not arrived.
#[derive(Debug, PartialEq, Eq)]
pub struct ChunkBuffer {
    pending: Vec<u8>,
}

impl ChunkBuffer {
    #[verifier::type_invariant]
    spec fn holds_no_line_feed(self) -> bool {
        unbroken(self.pending@)
    }

    /// The bytes that are kept.
    pub closed spec fn view(&self) -> Seq<u8> {
        self.pending@
    }

    /// A buffer that keeps nothing.
    pub fn new() -> (result: ChunkBuffer)
        ensures
            result@ == Seq::<u8>::empty(),
    {
        ChunkBuffer { pending: Vec::new() }
    }

    /// Takes the next piece of the stream and gives the chunks that it
    /// completes, in order. What follows the last line feed is kept for
    /// the next piece.
    pub fn push(&mut self, received: &[u8]) -> (chunks: Vec<Vec<u8>>)
        ensures
            contents(chunks@) == chunks_of(old(self)@ + received@),
            final(self)@ == pending_of(old(self)@ + received@),
    {
        proof {
            use_type_invariant(&*self);
            lemma_unbroken_is_pending(self.pending@);
        }
        let ghost kept = self.pending@;
        let mut pending: Vec<u8> = Vec::new();
        std::mem::swap(&mut self.pending, &mut pending);
        let mut chunks: Vec<Vec<u8>> = Vec::new();
        let mut i: usize = 0;
        proof {
            assert(kept + received@.take(0) =~= kept);
            assert(contents(chunks@) =~= chunks_of(kept));
        }
        while i < received.len()
            invariant
                i <= received@.len(),
                contents(chunks@) == chunks_of(kept + received@.take(i as int)),
                pending@ == pending_of(kept + received@.take(i as int)),
            decreases received@.len() - i,
        {
            let byte: u8 = received[i];
            let ghost seen = kept + received@.take(i as int);
            let ghost before = contents(chunks@);
            proof {
                assert((kept + received@.take(i + 1)).drop_last() =~= seen);
                assert((kept + received@.take(i + 1)).last() == byte);
            }
            if byte != LINE_FEED {
                pending.push(byte);
            } else if pending.len() > 0 {
                let mut chunk: Vec<u8> = Vec::new();
                std::mem::swap(&mut pending, &mut chunk);
                chunks.push(chunk);
                assert(contents(chunks@) =~= before.push(pending_of(seen)));
            }
            i = i + 1;
        }
        proof {
            assert(received@.take(i as int) =~= received@);
            lemma_chunks_are_unbroken(kept + received@);
        }
        self.pending = pending;
        chunks
    }

    /// Ends the stream: gives the bytes of a last chunk that no line feed
    /// ended, if there are any.
    pub fn finish(self) -> (last: Option<Vec<u8>>)
        ensures
            (match last {
                Some(chunk) => chunk@ == self@ && chunk@.len() > 0,
                None => self@.len() == 0,
            }),
    {
        if self.pending.len() > 0 {
            Some(self.pending)
        } else {
            None
        }
    }
}

} // verus!
