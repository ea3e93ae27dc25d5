//! A render session: exclusive owner of the graph that the render loop drives.
use vstd::prelude::*;

verus! {

/// A signal graph seen from the render loop: each call advances it by one
/// tick and yields that tick's stereo frame.
pub trait FrameSource<T> {
    fn next_frame(&mut self) -> (T, T);
}

/// Holds the graph for the whole render and is the only way to advance it,
/// so every frame it yields is on record, oldest first.
pub struct RenderSession<T, S> {
    source: S,
    log: Ghost<Seq<(T, T)>>,
}

impl<T, S: FrameSource<T>> RenderSession<T, S> {
    /// The frames yielded so far in this session, one per tick, oldest first.
    pub closed spec fn emitted(&self) -> Seq<(T, T)> {
        self.log@
    }

    /// A session over a freshly reset graph: no tick taken yet.
    pub fn new(source: S) -> (r: Self)
        ensures
            r.emitted() == Seq::<(T, T)>::empty(),
    {
        RenderSession { source, log: Ghost(Seq::empty()) }
    }

    /// Advances the graph by exactly one tick and yields that tick's frame.
    pub fn tick(&mut self) -> (r: (T, T))
        ensures
            final(self).emitted() == old(self).emitted().push(r),
    {
        let frame = self.source.next_frame();
        self.log = Ghost(self.log@.push(frame));
        frame
    }

    /// The graph, for inspection.
    pub fn source(&self) -> &S {
        &self.source
    }

    /// Ends the session and hands the graph back.
    pub fn into_source(self) -> S {
        self.source
    }
}

} // verus!
