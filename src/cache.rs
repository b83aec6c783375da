use vstd::prelude::*;
use crate::messages::{GetChunkAnswer, Pos};

verus! {

/// Which fetch, if any, is outstanding.
#[derive(Clone, Copy, PartialEq, Eq, Structural, Debug)]
pub enum Work {
    DownloadingAtPos(Pos),
    Idle,
}

/// The cache state: the cached prefix of the remote sequence, the outstanding
/// fetch, and whether the remote sequence is known to be exhausted.
pub struct Linear<T> {
    pub work: Work,
    pub cache: Vec<T>,
    pub cache_full: bool,
}

/// The mathematical model of a [`Linear`].
pub struct CacheModel<T> {
    pub work: Work,
    pub items: Seq<T>,
    pub full: bool,
}

impl<T> View for Linear<T> {
    type V = CacheModel<T>;

    open spec fn view(&self) -> CacheModel<T> {
        CacheModel { work: self.work, items: self.cache@, full: self.cache_full }
    }
}

impl<T> CacheModel<T> {
    /// The state a worker starts in: nothing cached, idle, not exhausted.
    pub open spec fn initial() -> Self {
        CacheModel { work: Work::Idle, items: Seq::empty(), full: false }
    }

    /// An outstanding fetch starts at or inside the cached prefix, and an
    /// exhausted cache has no outstanding fetch.
    pub open spec fn wf(self) -> bool {
        &&& (self.work matches Work::DownloadingAtPos(p) ==> 0 <= p <= self.items.len())
        &&& (self.full ==> self.work == Work::Idle)
    }

    /// The cache holds all of `[pos, pos + n)`.
    pub open spec fn covers(self, pos: Pos, n: int) -> bool {
        0 <= pos && pos + n <= self.items.len()
    }

    /// A request at `pos` for `n` items starts a fetch.
    pub open spec fn starts_fetch(self, pos: Pos, n: int) -> bool {
        &&& !self.full
        &&& !self.covers(pos, n)
        &&& self.work == Work::Idle
        &&& 0 <= pos <= self.items.len()
    }

    /// The state after a request at `pos` for `n` items.
    pub open spec fn after_request(self, pos: Pos, n: int) -> Self {
        if self.starts_fetch(pos, n) {
            CacheModel { work: Work::DownloadingAtPos(pos), ..self }
        } else {
            self
        }
    }

    /// A chunk tagged `pos` is merged: it answers the outstanding fetch and
    /// `pos` is still a valid merge point.
    pub open spec fn accepts(self, pos: Pos) -> bool {
        self.work == Work::DownloadingAtPos(pos) && 0 <= pos <= self.items.len()
    }

    /// The state after a chunk tagged `pos` arrived. An empty chunk latches
    /// exhaustion; a non-empty one replaces everything from `pos` on.
    pub open spec fn after_chunk(self, pos: Pos, chunk: Seq<T>) -> Self {
        if !self.accepts(pos) {
            self
        } else if chunk.len() == 0 {
            CacheModel { work: Work::Idle, full: true, ..self }
        } else {
            CacheModel { work: Work::Idle, items: self.items.subrange(0, pos as int) + chunk, ..self }
        }
    }

    /// The state after the fetch tagged `pos` timed out: only the matching
    /// outstanding fetch is released.
    pub open spec fn after_timeout(self, pos: Pos) -> Self {
        if self.work == Work::DownloadingAtPos(pos) {
            CacheModel { work: Work::Idle, ..self }
        } else {
            self
        }
    }
}

/// Each element of `b` is a clone of the element of `a` at the same index.
pub open spec fn clones_of<T: Clone>(a: Seq<T>, b: Seq<T>) -> bool {
    &&& a.len() == b.len()
    &&& forall|i: int| 0 <= i < a.len() ==> #[trigger] cloned(a[i], b[i])
}

/// `ans` is the reply owed to a request at `pos` for `n` items in state `m`.
pub open spec fn answers<T: Clone>(m: CacheModel<T>, pos: Pos, n: int, ans: GetChunkAnswer<Vec<T>>) -> bool {
    if m.full {
        ans is CacheFull
    } else if m.covers(pos, n) {
        ans matches GetChunkAnswer::HasChunk(v) && clones_of(m.items.subrange(pos as int, pos + n), v@)
    } else {
        ans is NoChunk
    }
}

/// Clones of `v[start..end]`, in order.
fn copy_range<T: Clone>(v: &Vec<T>, start: usize, end: usize) -> (r: Vec<T>)
    requires
        start <= end <= v.len(),
    ensures
        clones_of(v@.subrange(start as int, end as int), r@),
{
    let mut out: Vec<T> = Vec::new();
    let mut i: usize = start;
    while i < end
        invariant
            start <= i <= end <= v.len(),
            out@.len() == i - start,
            forall|k: int| 0 <= k < out@.len() ==> #[trigger] cloned(v@[start + k], out@[k]),
        decreases end - i,
    {
        let x = v[i].clone();
        out.push(x);
        i += 1;
    }
    proof {
        let sub = v@.subrange(start as int, end as int);
        assert forall|k: int| 0 <= k < sub.len() implies #[trigger] cloned(sub[k], out@[k]) by {
            assert(sub[k] == v@[start + k]);
        }
    }
    out
}

impl<T: Clone> Linear<T> {
    /// An empty, idle, not exhausted cache.
    pub fn new() -> (r: Self)
        ensures
            r@ == CacheModel::<T>::initial(),
            r@.wf(),
    {
        Linear { work: Work::Idle, cache: Vec::new(), cache_full: false }
    }

    /// Handles a request for the `chunk_size` items at `pos`. In order: an
    /// exhausted cache answers `CacheFull`; a cache holding the whole range
    /// serves clones of it; an idle worker whose cache reaches `pos` starts a
    /// fetch there (returned as `Some(pos)`); otherwise `NoChunk`.
    ///
    /// A range that ends exactly at the end of the cache counts as cached, so
    /// the chunk just merged is served rather than fetched again.
    pub fn get_chunk_at_pos(&mut self, pos: Pos, chunk_size: i32) -> (r: (GetChunkAnswer<Vec<T>>, Option<Pos>))
        requires
            old(self)@.wf(),
            chunk_size > 0,
        ensures
            final(self)@.wf(),
            final(self)@ == old(self)@.after_request(pos, chunk_size as int),
            answers(old(self)@, pos, chunk_size as int, r.0),
            r.1 == (if old(self)@.starts_fetch(pos, chunk_size as int) { Some(pos) } else { None::<Pos> }),
    {
        let len = self.cache.len();
        let n = chunk_size as usize;
        if self.cache_full {
            (GetChunkAnswer::CacheFull, None)
        } else if pos >= 0 && (pos as usize) <= len && n <= len - pos as usize {
            let upos = pos as usize;
            let chunk = copy_range(&self.cache, upos, upos + n);
            (GetChunkAnswer::HasChunk(chunk), None)
        } else if self.work == Work::Idle && pos >= 0 && (pos as usize) <= len {
            self.work = Work::DownloadingAtPos(pos);
            (GetChunkAnswer::NoChunk, Some(pos))
        } else {
            (GetChunkAnswer::NoChunk, None)
        }
    }

    /// Handles a chunk delivered for the fetch tagged `pos`. Unless it
    /// answers the outstanding fetch at a valid merge point it is stale and
    /// ignored. An empty chunk marks the remote sequence exhausted; a
    /// non-empty one truncates the cache to `pos` items and appends the chunk.
    /// Either way the worker becomes idle.
    pub fn chunk_received(&mut self, pos: Pos, chunk: Vec<T>)
        requires
            old(self)@.wf(),
        ensures
            final(self)@.wf(),
            final(self)@ == old(self)@.after_chunk(pos, chunk@),
    {
        let mut chunk = chunk;
        if self.work == Work::DownloadingAtPos(pos) && pos >= 0 && (pos as usize) <= self.cache.len() {
            if chunk.len() == 0 {
                self.cache_full = true;
            } else {
                self.cache.truncate(pos as usize);
                self.cache.append(&mut chunk);
            }
            self.work = Work::Idle;
        }
    }

    /// Handles the timeout of the fetch tagged `pos`: it releases the worker
    /// only when that fetch is still the outstanding one.
    pub fn work_timed_out(&mut self, pos: Pos)
        requires
            old(self)@.wf(),
        ensures
            final(self)@.wf(),
            final(self)@ == old(self)@.after_timeout(pos),
    {
        if self.work == Work::DownloadingAtPos(pos) {
            self.work = Work::Idle;
        }
    }
}

} // verus!
