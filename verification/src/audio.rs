//! The audio capture pipeline's verified core: converted samples accumulate
//! in a chunker that emits fixed-size chunks, completed chunks pass through a
//! bounded queue whose overflow policy is to drop (never to block the
//! device's real-time callback), and native unsigned samples are converted to
//! the signed 16-bit representation transcription expects.

use vstd::prelude::*;

verus! {

/// Every emitted chunk has the uniform length, so the emitted samples number
/// exactly `chunks * size`.
proof fn lemma_flatten_uniform_len(chunks: Seq<Seq<i16>>, size: int)
    requires
        forall|i: int| 0 <= i < chunks.len() ==> (#[trigger] chunks[i]).len() == size,
    ensures
        chunks.flatten().len() == chunks.len() * size,
    decreases chunks.len(),
{
    if chunks.len() == 0 {
    } else {
        let rest = chunks.drop_first();
        lemma_flatten_uniform_len(rest, size);
        assert(chunks.flatten() == chunks.first() + rest.flatten());
        assert(chunks.len() * size == size + rest.len() * size) by (nonlinear_arith)
            requires
                chunks.len() == rest.len() + 1,
        ;
    }
}

/// Accumulates samples into chunks of a fixed size. Whenever the buffer
/// reaches the chunk size, the full chunk is handed back and a fresh buffer
/// starts; at stream teardown, `flush` hands back whatever partial buffer
/// remains.
pub struct Chunker {
    chunk_size: usize,
    buffer: Vec<i16>,
    emitted: Ghost<Seq<Seq<i16>>>,
}

impl Chunker {
    /// The fixed chunk length.
    pub closed spec fn spec_chunk_size(&self) -> int {
        self.chunk_size as int
    }

    /// The samples accumulated towards the next chunk.
    pub closed spec fn spec_buffer(&self) -> Seq<i16> {
        self.buffer@
    }

    /// Every full chunk emitted so far, in emission order.
    pub closed spec fn spec_emitted(&self) -> Seq<Seq<i16>> {
        self.emitted@
    }

    /// Every sample pushed so far, in arrival order: the emitted chunks
    /// followed by the pending buffer.
    pub open spec fn spec_history(&self) -> Seq<i16> {
        self.spec_emitted().flatten() + self.spec_buffer()
    }

    /// The buffer never reaches the chunk size (it is emptied the moment it
    /// does), and every emitted chunk is exactly one chunk long.
    pub open spec fn wf(&self) -> bool {
        &&& self.spec_chunk_size() > 0
        &&& self.spec_buffer().len() < self.spec_chunk_size()
        &&& forall|i: int|
            0 <= i < self.spec_emitted().len() ==> (#[trigger] self.spec_emitted()[i]).len()
                == self.spec_chunk_size()
    }

    /// A fresh chunker that has seen no samples.
    pub fn new(chunk_size: usize) -> (r: Chunker)
        requires
            chunk_size > 0,
        ensures
            r.wf(),
            r.spec_chunk_size() == chunk_size,
            r.spec_emitted() == Seq::<Seq<i16>>::empty(),
            r.spec_buffer() == Seq::<i16>::empty(),
    {
        Chunker { chunk_size, buffer: Vec::new(), emitted: Ghost(Seq::empty()) }
    }

    /// Takes in one sample; hands back a full chunk exactly when this sample
    /// completes one.
    pub fn push_sample(&mut self, sample: i16) -> (out: Option<Vec<i16>>)
        requires
            old(self).wf(),
        ensures
            final(self).wf(),
            final(self).spec_chunk_size() == old(self).spec_chunk_size(),
            final(self).spec_history() == old(self).spec_history().push(sample),
            match out {
                Some(chunk) => {
                    &&& chunk@.len() == old(self).spec_chunk_size()
                    &&& final(self).spec_emitted() == old(self).spec_emitted().push(chunk@)
                    &&& final(self).spec_buffer() == Seq::<i16>::empty()
                },
                None => {
                    &&& final(self).spec_emitted() == old(self).spec_emitted()
                    &&& final(self).spec_buffer() == old(self).spec_buffer().push(sample)
                },
            },
    {
        self.buffer.push(sample);
        if self.buffer.len() == self.chunk_size {
            let mut chunk: Vec<i16> = Vec::new();
            core::mem::swap(&mut chunk, &mut self.buffer);
            proof {
                self.emitted@.lemma_flatten_push(chunk@);
                self.emitted@ = self.emitted@.push(chunk@);
                assert(self.spec_history() =~= old(self).spec_history().push(sample));
            }
            Some(chunk)
        } else {
            proof {
                assert(self.spec_history() =~= old(self).spec_history().push(sample));
            }
            None
        }
    }

    /// Takes in a batch of samples, as the device callback delivers them, and
    /// hands back the chunks completed along the way, in order.
    pub fn push_samples(&mut self, samples: &Vec<i16>) -> (chunks: Vec<Vec<i16>>)
        requires
            old(self).wf(),
        ensures
            final(self).wf(),
            final(self).spec_chunk_size() == old(self).spec_chunk_size(),
            final(self).spec_history() == old(self).spec_history() + samples@,
            final(self).spec_emitted() == old(self).spec_emitted() + chunks@.map_values(
                |c: Vec<i16>| c@,
            ),
    {
        let mut chunks: Vec<Vec<i16>> = Vec::new();
        let n = samples.len();
        let mut i: usize = 0;
        while i < n
            invariant
                n == samples@.len(),
                i <= n,
                self.wf(),
                self.spec_chunk_size() == old(self).spec_chunk_size(),
                self.spec_history() == old(self).spec_history() + samples@.take(i as int),
                self.spec_emitted() == old(self).spec_emitted() + chunks@.map_values(
                    |c: Vec<i16>| c@,
                ),
            decreases n - i,
        {
            let ghost prev_chunks = chunks@;
            let out = self.push_sample(samples[i]);
            proof {
                assert(old(self).spec_history() + samples@.take(i as int + 1) =~= (old(
                    self,
                ).spec_history() + samples@.take(i as int)).push(samples@[i as int]));
            }
            if let Some(chunk) = out {
                chunks.push(chunk);
                proof {
                    assert(chunks@.map_values(|c: Vec<i16>| c@) =~= prev_chunks.map_values(
                        |c: Vec<i16>| c@,
                    ).push(chunks@.last()@));
                    assert(self.spec_emitted() =~= old(self).spec_emitted() + chunks@.map_values(
                        |c: Vec<i16>| c@,
                    ));
                }
            }
            i += 1;
        }
        proof {
            assert(samples@.take(n as int) =~= samples@);
        }
        chunks
    }

    /// Ends the stream: hands back the pending partial chunk, non-empty only.
    pub fn flush(&mut self) -> (out: Option<Vec<i16>>)
        requires
            old(self).wf(),
        ensures
            final(self).wf(),
            final(self).spec_chunk_size() == old(self).spec_chunk_size(),
            final(self).spec_emitted() == old(self).spec_emitted(),
            final(self).spec_buffer() == Seq::<i16>::empty(),
            match out {
                Some(chunk) => chunk@ == old(self).spec_buffer() && chunk@.len() > 0,
                None => old(self).spec_buffer().len() == 0,
            },
    {
        if self.buffer.len() == 0 {
            proof {
                assert(self.spec_buffer() =~= Seq::<i16>::empty());
            }
            None
        } else {
            let mut chunk: Vec<i16> = Vec::new();
            core::mem::swap(&mut chunk, &mut self.buffer);
            proof {
                assert(self.spec_buffer() =~= Seq::<i16>::empty());
                assert forall|i: int| 0 <= i < self.spec_emitted().len() implies (
                #[trigger] self.spec_emitted()[i]).len() == self.spec_chunk_size() by {
                    assert(old(self).spec_emitted()[i].len() == old(self).spec_chunk_size());
                }
            }
            Some(chunk)
        }
    }
}

/// Chunking arithmetic: a chunker that has taken in exactly
/// `n * chunk_size + r` samples (with `r` short of a full chunk) has emitted
/// exactly `n` full chunks and holds exactly `r` samples for the final flush.
pub proof fn lemma_chunk_count(c: Chunker, n: int, r: int)
    requires
        c.wf(),
        0 <= n,
        0 <= r < c.spec_chunk_size(),
        c.spec_history().len() == n * c.spec_chunk_size() + r,
    ensures
        c.spec_emitted().len() == n,
        c.spec_buffer().len() == r,
{
    let size = c.spec_chunk_size();
    let e = c.spec_emitted().len() as int;
    let b = c.spec_buffer().len() as int;
    lemma_flatten_uniform_len(c.spec_emitted(), size);
    assert(e == n && b == r) by (nonlinear_arith)
        requires
            e * size + b == n * size + r,
            0 <= b < size,
            0 <= r < size,
            0 <= e,
            0 <= n,
            size > 0,
    ;
}

/// The bounded queue between the audio capture producer and the
/// transcription dispatcher. When full, an offered chunk is dropped rather
/// than blocking the producer; chunks leave in arrival order.
pub struct ChunkQueue {
    items: Vec<Vec<i16>>,
    capacity: usize,
}

impl ChunkQueue {
    /// The queued chunks, oldest first.
    pub closed spec fn view(&self) -> Seq<Seq<i16>> {
        self.items@.map_values(|c: Vec<i16>| c@)
    }

    /// The fixed bound on how many chunks may wait.
    pub closed spec fn spec_capacity(&self) -> int {
        self.capacity as int
    }

    /// The queue never holds more than its capacity.
    pub open spec fn wf(&self) -> bool {
        self@.len() <= self.spec_capacity()
    }

    /// An empty queue with the given bound.
    pub fn new(capacity: usize) -> (r: ChunkQueue)
        requires
            capacity >= 1,
        ensures
            r.wf(),
            r.spec_capacity() == capacity,
            r@ == Seq::<Seq<i16>>::empty(),
    {
        let r = ChunkQueue { items: Vec::new(), capacity };
        proof {
            assert(r@ =~= Seq::<Seq<i16>>::empty());
        }
        r
    }

    /// How many chunks wait.
    pub fn len(&self) -> (n: usize)
        ensures
            n == self@.len(),
    {
        self.items.len()
    }

    /// Offers a chunk. A queue below capacity accepts it at the back; a full
    /// queue refuses it and is left exactly as it was — the chunk is dropped,
    /// the producer is never held up.
    pub fn offer(&mut self, chunk: Vec<i16>) -> (accepted: bool)
        requires
            old(self).wf(),
        ensures
            final(self).wf(),
            final(self).spec_capacity() == old(self).spec_capacity(),
            accepted <==> old(self)@.len() < old(self).spec_capacity(),
            accepted ==> final(self)@ == old(self)@.push(chunk@),
            !accepted ==> final(self)@ == old(self)@,
    {
        if self.items.len() < self.capacity {
            self.items.push(chunk);
            proof {
                assert(self@ =~= old(self)@.push(chunk@));
            }
            true
        } else {
            false
        }
    }

    /// Takes the oldest waiting chunk, if any.
    pub fn poll(&mut self) -> (out: Option<Vec<i16>>)
        requires
            old(self).wf(),
        ensures
            final(self).wf(),
            final(self).spec_capacity() == old(self).spec_capacity(),
            match out {
                Some(chunk) => old(self)@.len() > 0 && chunk@ == old(self)@[0] && final(self)@
                    == old(self)@.drop_first(),
                None => old(self)@.len() == 0 && final(self)@ == old(self)@,
            },
    {
        if self.items.len() == 0 {
            None
        } else {
            let chunk = self.items.remove(0);
            proof {
                assert(self@ =~= old(self)@.drop_first());
            }
            Some(chunk)
        }
    }
}

/// Relies on dasp_sample's `u16` to `i16` conversion: the result shifts the
/// unsigned sample down by the midpoint 32768, in both of its branches.
#[verifier::external_body]
fn sample_u16_to_i16(sample: u16) -> (r: i16)
    ensures
        r as int == sample as int - 32768,
{
    dasp_sample::conv::u16::to_i16(sample)
}

/// Converts a batch of native unsigned 16-bit samples to the signed
/// representation the transcription engine expects, each shifted down by the
/// unsigned midpoint.
pub fn convert_u16_samples(samples: &Vec<u16>) -> (r: Vec<i16>)
    ensures
        r@.len() == samples@.len(),
        forall|i: int|
            0 <= i < samples@.len() ==> (#[trigger] r@[i]) as int == samples@[i] as int - 32768,
{
    let n = samples.len();
    let mut r: Vec<i16> = Vec::new();
    let mut i: usize = 0;
    while i < n
        invariant
            n == samples@.len(),
            i <= n,
            r@.len() == i,
            forall|j: int|
                0 <= j < i ==> (#[trigger] r@[j]) as int == samples@[j] as int - 32768,
        decreases n - i,
    {
        r.push(sample_u16_to_i16(samples[i]));
        i += 1;
    }
    r
}

} // verus!
