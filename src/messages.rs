use vstd::prelude::*;

verus! {

/// An offset into the remote sequence; non-negative by convention.
pub type Pos = i32;

/// The messages a worker consumes.
#[derive(Clone, Debug)]
pub enum M<C> {
    /// A caller wants the chunk that starts at this position.
    GetChunkAtPos(Pos),
    /// The fetch started at this position delivered a chunk.
    PChunkReceived(Pos, Vec<C>),
    /// The fetch started at this position did not complete in time.
    PWorkTimedOut(Pos),
}

/// The reply to a `GetChunkAtPos` request.
#[derive(Clone, PartialEq, Debug)]
pub enum GetChunkAnswer<T> {
    /// The whole requested range is cached.
    HasChunk(T),
    /// Not available yet; ask again later.
    NoChunk,
    /// The remote sequence is exhausted; nothing more will ever arrive.
    CacheFull,
}

/// A fetch to dispatch: `count` items starting at `pos`, raced against a
/// timer of `timeout_secs` seconds, its outcome delivered back tagged `pos`.
#[derive(Clone, Copy, PartialEq, Eq, Structural, Debug)]
pub struct Fetch {
    pub count: i32,
    pub pos: Pos,
    pub timeout_secs: u64,
}

/// What the caller must do after a message was handled: send `reply` to the
/// requester, if any, and dispatch `fetch`, if any.
#[derive(Clone, Debug)]
pub struct Reaction<T> {
    pub reply: Option<GetChunkAnswer<Vec<T>>>,
    pub fetch: Option<Fetch>,
}

} // verus!
