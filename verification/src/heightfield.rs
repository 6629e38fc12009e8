//! The heightfield exchange between the erosion simulator, which writes, and
//! the render path, which reads.
//!
//! The policy is double buffering. The simulator computes a pass into a buffer
//! of its own and publishes it as a whole; publishing swaps it against the
//! buffer that was readable until then, which goes back to the simulator for
//! its next pass. Readers only ever see a published buffer. Publishing needs
//! the exchange for itself (`&mut`), so a read cannot overlap a publication:
//! where simulator and renderer run on different threads, the exchange sits
//! behind a lock.
//!
//! The cell type is left open. It is the scalar of the height stream.

use vstd::prelude::*;

verus! {

/// Why a publication was turned down.
#[derive(Clone, Copy, Debug, PartialEq, Eq, Structural)]
pub enum PublishError {
    /// The buffer does not hold one height for each vertex.
    LengthMismatch,
    /// The buffer belongs to a pass that is not later than the published one.
    StaleIteration,
}

/// A buffer that was not published, handed back with the reason.
pub struct Rejected<T> {
    pub reason: PublishError,
    pub values: Vec<T>,
}

/// What readers see: the heights and the simulation pass that made them.
pub struct Published<T> {
    pub heights: Seq<T>,
    pub version: u64,
}

/// One attempt to publish: the simulation pass and its buffer.
pub struct Attempt<T> {
    pub iteration: u64,
    pub values: Seq<T>,
}

impl<T> Published<T> {
    /// Whether the attempt is turned down, and why.
    pub open spec fn verdict(self, attempt: Attempt<T>) -> Option<PublishError> {
        if attempt.values.len() != self.heights.len() {
            Some(PublishError::LengthMismatch)
        } else if attempt.iteration <= self.version {
            Some(PublishError::StaleIteration)
        } else {
            None
        }
    }

    /// What readers see after the attempt: all of its buffer if it was taken,
    /// else what they saw before.
    pub open spec fn after(self, attempt: Attempt<T>) -> Published<T> {
        if self.verdict(attempt) is None {
            Published { heights: attempt.values, version: attempt.iteration }
        } else {
            self
        }
    }

    /// What readers see after a sequence of attempts.
    pub open spec fn after_all(self, attempts: Seq<Attempt<T>>) -> Published<T>
        decreases attempts.len(),
    {
        if attempts.len() == 0 {
            self
        } else {
            self.after_all(attempts.drop_last()).after(attempts.last())
        }
    }
}

/// Whatever the simulator attempts, and in whatever order, readers see a
/// whole buffer with one height for each vertex: the initial one, or the
/// buffer of an attempt that was taken, under that attempt's pass number. The
/// pass number that readers see never goes back.
pub proof fn lemma_readers_see_whole_publications<T>(
    initial: Published<T>,
    attempts: Seq<Attempt<T>>,
)
    ensures
        ({
            let seen = initial.after_all(attempts);
            &&& seen.heights.len() == initial.heights.len()
            &&& seen.version >= initial.version
            &&& seen == initial || exists|k: int|
                0 <= k < attempts.len() && seen.heights == (#[trigger] attempts[k]).values
                    && seen.version == attempts[k].iteration && seen.version > initial.version
        }),
    decreases attempts.len(),
{
    if attempts.len() > 0 {
        let earlier = attempts.drop_last();
        lemma_readers_see_whole_publications(initial, earlier);
        let before = initial.after_all(earlier);
        let seen = initial.after_all(attempts);
        if before.verdict(attempts.last()) is None {
            assert(seen.heights == attempts[attempts.len() - 1].values);
        } else if before != initial {
            let k = choose|k: int|
                0 <= k < earlier.len() && before.heights == (#[trigger] earlier[k]).values
                    && before.version == earlier[k].iteration && before.version
                    > initial.version;
            assert(attempts[k] == earlier[k]);
        }
    }
}

/// The readable heightfield and the number of the simulation pass that made
/// it.
pub struct Heightfield<T> {
    cells: Vec<T>,
    iteration: u64,
}

impl<T> Heightfield<T> {
    /// The heights that readers see.
    pub closed spec fn heights(&self) -> Seq<T> {
        self.cells@
    }

    /// The simulation pass that produced the readable heights; 0 before the
    /// first publication.
    pub closed spec fn version(&self) -> u64 {
        self.iteration
    }

    /// What readers see.
    pub open spec fn published(&self) -> Published<T> {
        Published { heights: self.heights(), version: self.version() }
    }

    /// Number of heights, which is the number of vertices of the mesh.
    pub fn len(&self) -> (len: usize)
        ensures
            len == self.heights().len(),
    {
        self.cells.len()
    }

    /// The simulation pass that produced the readable heights.
    pub fn published_iteration(&self) -> (iteration: u64)
        ensures
            iteration == self.version(),
    {
        self.iteration
    }

    /// The readable heights.
    pub fn snapshot(&self) -> (heights: &Vec<T>)
        ensures
            heights@ == self.heights(),
    {
        &self.cells
    }

    /// Publishes the heights of simulation pass `iteration`.
    ///
    /// The buffer is taken if it holds one height for each vertex and the
    /// pass is later than the published one. It then becomes readable as a
    /// whole, and the buffer that it replaces is returned. Otherwise nothing
    /// changes and the buffer comes back with the reason.
    pub fn publish(&mut self, iteration: u64, values: Vec<T>) -> (outcome: Result<
        Vec<T>,
        Rejected<T>,
    >)
        ensures
            final(self).published() == old(self).published().after(
                Attempt { iteration, values: values@ },
            ),
            final(self).heights().len() == old(self).heights().len(),
            final(self).version() >= old(self).version(),
            match outcome {
                Ok(previous) => {
                    &&& old(self).published().verdict(Attempt { iteration, values: values@ })
                        is None
                    &&& final(self).heights() == values@
                    &&& final(self).version() == iteration
                    &&& previous@ == old(self).heights()
                },
                Err(rejected) => {
                    &&& old(self).published().verdict(Attempt { iteration, values: values@ })
                        == Some(rejected.reason)
                    &&& final(self).heights() == old(self).heights()
                    &&& final(self).version() == old(self).version()
                    &&& rejected.values@ == values@
                },
            },
    {
        if values.len() != self.cells.len() {
            return Err(Rejected { reason: PublishError::LengthMismatch, values });
        }
        if iteration <= self.iteration {
            return Err(Rejected { reason: PublishError::StaleIteration, values });
        }
        let mut previous = values;
        std::mem::swap(&mut self.cells, &mut previous);
        self.iteration = iteration;
        Ok(previous)
    }
}

impl<T: Copy> Heightfield<T> {
    /// A heightfield of `len` heights, all equal to `fill`, that no simulation
    /// pass has touched yet.
    pub fn new(len: usize, fill: T) -> (field: Heightfield<T>)
        ensures
            field.heights() == Seq::new(len as nat, |i: int| fill),
            field.version() == 0,
    {
        let mut cells: Vec<T> = Vec::new();
        let mut i: usize = 0;
        while i < len
            invariant
                i <= len,
                cells@.len() == i,
                forall|k: int| 0 <= k < i ==> cells@[k] == fill,
            decreases len - i,
        {
            cells.push(fill);
            i += 1;
        }
        assert(cells@ =~= Seq::new(len as nat, |i: int| fill));
        Heightfield { cells, iteration: 0 }
    }
}

/// The render path's memory of what it has taken from a heightfield.
#[derive(Clone, Copy, Debug, PartialEq, Eq, Structural)]
pub struct HeightCursor {
    /// The last pass that was taken, if any was.
    pub observed: Option<u64>,
}

impl HeightCursor {
    /// Whether a heightfield published as pass `version` is news to a reader
    /// that has taken `observed`.
    pub open spec fn is_news(observed: Option<u64>, version: u64) -> bool {
        match observed {
            Some(seen) => seen < version,
            None => true,
        }
    }

    /// A cursor that has taken nothing yet.
    pub fn new() -> (cursor: HeightCursor)
        ensures
            cursor.observed is None,
    {
        HeightCursor { observed: None }
    }

    /// Takes the readable heights if the reader has not had them yet.
    ///
    /// The first call takes what is there. Later calls take only a later pass
    /// than the one taken last, so a reader that follows one exchange never
    /// goes back to older heights.
    pub fn observe<'a, T>(&mut self, field: &'a Heightfield<T>) -> (news: Option<&'a Vec<T>>)
        ensures
            match news {
                Some(heights) => {
                    &&& HeightCursor::is_news(old(self).observed, field.version())
                    &&& heights@ == field.heights()
                    &&& final(self).observed == Some(field.version())
                },
                None => {
                    &&& !HeightCursor::is_news(old(self).observed, field.version())
                    &&& *final(self) == *old(self)
                },
            },
    {
        let version = field.published_iteration();
        let news = match self.observed {
            Some(seen) => seen < version,
            None => true,
        };
        if news {
            self.observed = Some(version);
            Some(field.snapshot())
        } else {
            None
        }
    }
}

} // verus!
