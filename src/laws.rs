//! Properties of the worker's state machine over whole runs of messages.
use vstd::prelude::*;
use crate::cache::{answers, CacheModel, Work};
use crate::messages::{Pos, M};
use crate::worker::{run, step};

verus! {

/// Handling any message keeps the state well formed.
pub proof fn lemma_step_preserves_wf<T>(m: CacheModel<T>, msg: M<T>, n: int)
    requires
        m.wf(),
    ensures
        step(m, msg, n).wf(),
{
}

/// Handling any sequence of messages keeps the state well formed.
pub proof fn lemma_run_preserves_wf<T>(m: CacheModel<T>, msgs: Seq<M<T>>, n: int)
    requires
        m.wf(),
    ensures
        run(m, msgs, n).wf(),
    decreases msgs.len(),
{
    if msgs.len() > 0 {
        lemma_step_preserves_wf(m, msgs[0], n);
        lemma_run_preserves_wf(step(m, msgs[0], n), msgs.drop_first(), n);
    }
}

/// A chunk whose fetch is not the outstanding one changes nothing.
pub proof fn lemma_stale_chunk_is_noop<T>(m: CacheModel<T>, pos: Pos, chunk: Seq<T>)
    requires
        m.work != Work::DownloadingAtPos(pos),
    ensures
        m.after_chunk(pos, chunk) == m,
{
}

/// Delivering a merged chunk a second time leaves the state, and so the
/// cache, as the first delivery left it.
pub proof fn lemma_remerge_is_noop<T>(m: CacheModel<T>, msg: M<T>, n: int)
    requires
        msg matches M::PChunkReceived(pos, _) && m.accepts(pos),
    ensures
        step(step(m, msg, n), msg, n) == step(m, msg, n),
{
}

/// While a fetch is outstanding, two requests at any positions start no
/// further fetch and change nothing; each one whose range is not cached is
/// answered `NoChunk`.
pub proof fn lemma_single_flight<T: Clone>(m: CacheModel<T>, pos1: Pos, pos2: Pos, n: int)
    requires
        m.wf(),
        m.work is DownloadingAtPos,
    ensures
        !m.starts_fetch(pos1, n),
        !m.after_request(pos1, n).starts_fetch(pos2, n),
        m.after_request(pos1, n).after_request(pos2, n) == m,
        !m.covers(pos1, n) ==> forall|ans| #[trigger] answers(m, pos1, n, ans) <==> ans is NoChunk,
        !m.covers(pos2, n) ==> forall|ans| #[trigger] answers(m, pos2, n, ans) <==> ans is NoChunk,
{
}

/// Each message either keeps the cache as a prefix of the new one, or, when
/// it merges the chunk of the outstanding fetch at `p`, keeps the first `p`
/// items and puts at least one item after them. No message leaves a gap or
/// drops anything before the outstanding fetch's position.
pub proof fn lemma_contiguity<T>(m: CacheModel<T>, msg: M<T>, n: int)
    requires
        m.wf(),
    ensures
        ({
            let m2 = step(m, msg, n);
            ||| m.items.is_prefix_of(m2.items)
            ||| (m.work matches Work::DownloadingAtPos(p) && m2.items.len() > p
                && m.items.subrange(0, p as int).is_prefix_of(m2.items))
        }),
{
    let m2 = step(m, msg, n);
    if let M::PChunkReceived(pos, chunk) = msg {
        if m.accepts(pos) && chunk@.len() > 0 {
            assert(m2.items.subrange(0, pos as int) =~= m.items.subrange(0, pos as int));
        } else {
            assert(m.items.is_prefix_of(m2.items)) by {
                assert(m2.items.subrange(0, m.items.len() as int) =~= m.items);
            }
        }
    } else {
        assert(m.items.is_prefix_of(m2.items)) by {
            assert(m2.items.subrange(0, m.items.len() as int) =~= m.items);
        }
    }
}

/// Once exhausted, a well-formed state stays exhausted with its cache
/// frozen, whatever messages follow.
pub proof fn lemma_full_stays_full<T>(m: CacheModel<T>, msgs: Seq<M<T>>, n: int)
    requires
        m.wf(),
        m.full,
    ensures
        run(m, msgs, n).full,
        run(m, msgs, n).items == m.items,
        run(m, msgs, n).wf(),
    decreases msgs.len(),
{
    if msgs.len() > 0 {
        lemma_full_stays_full(step(m, msgs[0], n), msgs.drop_first(), n);
    }
}

/// After an empty chunk is merged, every later request, at any position and
/// after any further messages, is answered `CacheFull`.
pub proof fn lemma_exhaustion_latch<T: Clone>(m: CacheModel<T>, msg: M<T>, msgs: Seq<M<T>>, pos: Pos, n: int)
    requires
        m.wf(),
        msg matches M::PChunkReceived(p, chunk) && m.accepts(p) && chunk@.len() == 0,
    ensures
        run(step(m, msg, n), msgs, n).full,
        forall|ans| #[trigger] answers(run(step(m, msg, n), msgs, n), pos, n, ans) <==> ans is CacheFull,
{
    lemma_full_stays_full(step(m, msg, n), msgs, n);
}

/// A timeout for a fetch that was already resolved, by its chunk or by an
/// earlier timeout, changes nothing.
pub proof fn lemma_stale_timeout_is_noop<T>(m: CacheModel<T>, resolving: M<T>, pos: Pos, n: int)
    requires
        m.wf(),
        m.work == Work::DownloadingAtPos(pos),
        resolving == M::<T>::PWorkTimedOut(pos) || (resolving matches M::PChunkReceived(p, _) && p == pos),
    ensures
        step(step(m, resolving, n), M::PWorkTimedOut(pos), n) == step(m, resolving, n),
{
}

} // verus!
