//! Assembling a request body from delivered segments under a size ceiling.
//! Crossing the ceiling is a defined event: the collector refuses the
//! offending chunk whole, so no byte past the ceiling is ever buffered.

use vstd::prelude::*;

verus! {

/// The body would grow past the configured ceiling.
#[derive(Clone, Copy, Debug, PartialEq, Eq, Structural)]
pub struct BodyTooLarge;

/// The delivered segments, laid end to end.
pub open spec fn concat_bytes(segs: Seq<Seq<u8>>) -> Seq<u8>
    decreases segs.len(),
{
    if segs.len() == 0 {
        Seq::empty()
    } else {
        segs[0] + concat_bytes(segs.drop_first())
    }
}

/// What collecting a segment list under `ceiling` produces: the whole body
/// when it fits, nothing when it would not.
pub open spec fn spec_collect(segs: Seq<Seq<u8>>, ceiling: int) -> Option<Seq<u8>> {
    if concat_bytes(segs).len() <= ceiling {
        Some(concat_bytes(segs))
    } else {
        None
    }
}

/// Accumulates body bytes, never holding more than its ceiling.
pub struct BodyCollector {
    buf: Vec<u8>,
    ceiling: usize,
}

impl BodyCollector {
    /// The collector never holds more than its ceiling.
    pub closed spec fn wf(&self) -> bool {
        self.bytes().len() <= self.spec_ceiling()
    }

    /// The bytes accumulated so far.
    pub closed spec fn bytes(&self) -> Seq<u8> {
        self.buf@
    }

    /// The configured ceiling.
    pub closed spec fn spec_ceiling(&self) -> usize {
        self.ceiling
    }

    /// An empty collector for the given ceiling.
    pub fn new(ceiling: usize) -> (r: Self)
        ensures
            r.wf(),
            r.bytes() == Seq::<u8>::empty(),
            r.spec_ceiling() == ceiling,
    {
        BodyCollector { buf: Vec::new(), ceiling }
    }

    /// Number of bytes accumulated so far.
    pub fn len(&self) -> (r: usize)
        ensures
            r == self.bytes().len(),
    {
        self.buf.len()
    }

    /// Would `extra` more bytes cross the ceiling? Lets a caller refuse a
    /// segment of known size before materializing any of it.
    pub fn would_exceed(&self, extra: usize) -> (r: bool)
        requires
            self.wf(),
        ensures
            r == (self.bytes().len() + extra > self.spec_ceiling()),
    {
        extra > self.ceiling - self.buf.len()
    }

    /// Append one delivered chunk. A chunk that would cross the ceiling is
    /// refused whole and the collector is left as it was.
    pub fn push_chunk(&mut self, chunk: &[u8]) -> (r: Result<(), BodyTooLarge>)
        requires
            old(self).wf(),
        ensures
            final(self).wf(),
            final(self).spec_ceiling() == old(self).spec_ceiling(),
            r is Ok <==> old(self).bytes().len() + chunk@.len() <= old(self).spec_ceiling(),
            r is Ok ==> final(self).bytes() == old(self).bytes() + chunk@,
            r is Err ==> final(self).bytes() == old(self).bytes(),
    {
        if chunk.len() > self.ceiling - self.buf.len() {
            return Err(BodyTooLarge);
        }
        self.buf.extend_from_slice(chunk);
        Ok(())
    }

    /// Hand the accumulated body over.
    pub fn into_body(self) -> (r: Vec<u8>)
        ensures
            r@ == self.bytes(),
    {
        self.buf
    }
}

/// How many bytes of a spilled segment to read next: a bounded slice of
/// what remains, so large segments never force a large transient buffer.
pub fn next_read_len(remaining: usize) -> (r: usize)
    ensures
        r == crate::client::spec_min(
            crate::client::DEFAULT_CHUNK_SIZE as int,
            remaining as int,
        ),
{
    if remaining < crate::client::DEFAULT_CHUNK_SIZE {
        remaining
    } else {
        crate::client::DEFAULT_CHUNK_SIZE
    }
}

/// Collect in-memory segments in delivery order into one body, refusing the
/// whole delivery as soon as the running total would cross the ceiling.
pub fn collect_segments(segments: &Vec<Vec<u8>>, ceiling: usize) -> (r: Result<
    Vec<u8>,
    BodyTooLarge,
>)
    ensures
        match r {
            Ok(b) => spec_collect(segments.deep_view(), ceiling as int) == Some(b@),
            Err(_) => spec_collect(segments.deep_view(), ceiling as int) is None,
        },
{
    let ghost all = segments.deep_view();
    let mut collector = BodyCollector::new(ceiling);
    let n = segments.len();
    let mut i: usize = 0;
    proof {
        assert(all.skip(0) =~= all);
    }
    while i < n
        invariant
            n == segments@.len(),
            all == segments.deep_view(),
            i <= n,
            collector.wf(),
            collector.spec_ceiling() == ceiling,
            concat_bytes(all) == collector.bytes() + concat_bytes(all.skip(i as int)),
        decreases n - i,
    {
        proof {
            assert(all.skip(i as int)[0] == all[i as int]);
            assert(all[i as int] == segments@[i as int]@);
            assert(all.skip(i as int).drop_first() =~= all.skip(i + 1));
        }
        match collector.push_chunk(segments[i].as_slice()) {
            Ok(_) => {},
            Err(e) => {
                proof {
                    assert(concat_bytes(all).len() >= collector.bytes().len()
                        + segments@[i as int]@.len());
                }
                return Err(e);
            },
        }
        i += 1;
    }
    proof {
        assert(all.skip(n as int) =~= Seq::<Seq<u8>>::empty());
        assert(concat_bytes(all) == collector.bytes() + Seq::<u8>::empty());
        assert(concat_bytes(all) =~= collector.bytes());
    }
    Ok(collector.into_body())
}

/// Whether collection succeeds, and what it yields, depends on the
/// concatenated bytes and the ceiling alone: two deliveries of the same
/// body in different segmentations collect identically, however the
/// ceiling boundary falls against their chunk boundaries.
pub proof fn lemma_collect_segmentation_independent(
    segs1: Seq<Seq<u8>>,
    segs2: Seq<Seq<u8>>,
    ceiling: int,
)
    requires
        concat_bytes(segs1) == concat_bytes(segs2),
    ensures
        spec_collect(segs1, ceiling) == spec_collect(segs2, ceiling),
{
}

} // verus!
