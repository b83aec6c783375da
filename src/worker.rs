use vstd::prelude::*;
use crate::cache::{answers, CacheModel, Linear};
use crate::messages::{Fetch, GetChunkAnswer, Reaction, M};

verus! {

/// The number of items a worker fetches, and serves, at a time.
pub const CHUNK_SIZE: i32 = 100;

/// How long a dispatched fetch may take before it is given up, in seconds.
pub const FETCH_TIMEOUT_SECS: u64 = 4000;

/// The worker: a cache state and the fixed parameters of its fetches. It
/// handles one message at a time; the caller owns it exclusively.
pub struct FriendsWorker<T> {
    pub chunk_size: i32,
    pub timeout_secs: u64,
    pub main: Linear<T>,
}

/// The state after `msg` is handled in state `m`, with chunks of `n` items.
pub open spec fn step<T>(m: CacheModel<T>, msg: M<T>, n: int) -> CacheModel<T> {
    match msg {
        M::GetChunkAtPos(pos) => m.after_request(pos, n),
        M::PChunkReceived(pos, chunk) => m.after_chunk(pos, chunk@),
        M::PWorkTimedOut(pos) => m.after_timeout(pos),
    }
}

/// The state after the messages `msgs` are handled in order, from state `m`.
pub open spec fn run<T>(m: CacheModel<T>, msgs: Seq<M<T>>, n: int) -> CacheModel<T>
    decreases msgs.len(),
{
    if msgs.len() == 0 {
        m
    } else {
        run(step(m, msgs[0], n), msgs.drop_first(), n)
    }
}

impl<T: Clone> FriendsWorker<T> {
    /// The worker's invariant.
    pub open spec fn wf(&self) -> bool {
        self.chunk_size > 0 && self.main@.wf()
    }

    /// A worker with an empty cache, fetching `CHUNK_SIZE` items at a time.
    pub fn new() -> (r: Self)
        ensures
            r.wf(),
            r.chunk_size == CHUNK_SIZE,
            r.timeout_secs == FETCH_TIMEOUT_SECS,
            r.main@ == CacheModel::<T>::initial(),
    {
        FriendsWorker { chunk_size: CHUNK_SIZE, timeout_secs: FETCH_TIMEOUT_SECS, main: Linear::new() }
    }

    /// Handles one message. A request always gets a reply, and a fetch to
    /// dispatch exactly when it starts one; the other messages only update
    /// the state.
    pub fn receive(&mut self, msg: M<T>) -> (r: Reaction<T>)
        requires
            old(self).wf(),
        ensures
            final(self).wf(),
            final(self).chunk_size == old(self).chunk_size,
            final(self).timeout_secs == old(self).timeout_secs,
            final(self).main@ == step(old(self).main@, msg, old(self).chunk_size as int),
            match msg {
                M::GetChunkAtPos(pos) => {
                    &&& r.reply matches Some(ans)
                    &&& answers(old(self).main@, pos, old(self).chunk_size as int, ans)
                    &&& r.fetch == if old(self).main@.starts_fetch(pos, old(self).chunk_size as int) {
                        Some(Fetch { count: old(self).chunk_size, pos, timeout_secs: old(self).timeout_secs })
                    } else {
                        None::<Fetch>
                    }
                },
                _ => r.reply is None && r.fetch is None,
            },
    {
        match msg {
            M::GetChunkAtPos(pos) => {
                let (ans, started) = self.main.get_chunk_at_pos(pos, self.chunk_size);
                let fetch = match started {
                    Some(at) => Some(Fetch { count: self.chunk_size, pos: at, timeout_secs: self.timeout_secs }),
                    None => None,
                };
                Reaction { reply: Some(ans), fetch }
            },
            M::PChunkReceived(pos, chunk) => {
                self.main.chunk_received(pos, chunk);
                Reaction { reply: None, fetch: None }
            },
            M::PWorkTimedOut(pos) => {
                self.main.work_timed_out(pos);
                Reaction { reply: None, fetch: None }
            },
        }
    }
}

} // verus!
