//! The light-transport integrator as a state machine.
//!
//! A ray is followed from bounce to bounce. At each step the scene is queried
//! (while depth remains) and either the ray escapes to the sky, is absorbed,
//! or is scattered into a new ray one level deeper. The colour of the path is
//! the product of the attenuations of its scatter events with the sky colour
//! where it ended on the sky, and black where it ended otherwise.
use vstd::prelude::*;
use crate::nearest::{scanned, lemma_scan_finds_nearest};
use crate::scatter::Bounce;

verus! {

/// How a path ended.
#[derive(Clone, Copy, Debug, PartialEq, Eq, Structural)]
pub enum PathEnd {
    /// Absorbed, or out of depth: the path carries no light.
    Black,
    /// Escaped the scene: the path carries the background colour.
    Sky,
}

/// What the scene and the material made of the current ray.
#[derive(Clone, Copy, Debug, PartialEq, Eq, Structural)]
pub enum Event {
    /// No primitive was hit.
    Miss,
    /// A primitive was hit and its material decided this.
    Hit(Bounce),
}

/// Progress of one path.
#[derive(Clone, Copy, Debug, PartialEq, Eq, Structural)]
pub struct Path {
    /// Scene queries still allowed.
    pub remaining: i32,
    /// Scatter events so far; the path's colour multiplies their attenuations.
    pub bounces: u32,
    /// How the path ended, once it has.
    pub end: Option<PathEnd>,
}

/// A path that starts with `max_depth` queries allowed: with none left, it
/// is black at once.
pub open spec fn started(max_depth: i32) -> Path {
    Path {
        remaining: max_depth,
        bounces: 0,
        end: if max_depth <= 0 {
            Some(PathEnd::Black)
        } else {
            None
        },
    }
}

/// The path after `e`; a path that has ended stays as it is.
pub open spec fn advanced(s: Path, e: Event) -> Path {
    if s.end is Some {
        s
    } else {
        match e {
            Event::Miss => Path { end: Some(PathEnd::Sky), ..s },
            Event::Hit(b) => if b.scatters() {
                Path {
                    remaining: (s.remaining - 1) as i32,
                    bounces: (s.bounces + 1) as u32,
                    end: if s.remaining - 1 <= 0 {
                        Some(PathEnd::Black)
                    } else {
                        None
                    },
                }
            } else {
                Path { end: Some(PathEnd::Black), ..s }
            },
        }
    }
}

/// The path that started with `max_depth` after the events `es`, in order.
pub open spec fn run(max_depth: i32, es: Seq<Event>) -> Path
    decreases es.len(),
{
    if es.len() == 0 {
        started(max_depth)
    } else {
        advanced(run(max_depth, es.drop_last()), es.last())
    }
}

impl Path {
    /// The bookkeeping holds: a path that goes on may still query, and the
    /// bounces taken and the queries left add up to at most the largest `i32`.
    pub open spec fn wf(self) -> bool {
        &&& self.end is None ==> self.remaining > 0
        &&& self.bounces + self.remaining <= i32::MAX
    }

    /// A path allowed `max_depth` queries of the scene.
    pub fn start(max_depth: i32) -> (r: Path)
        ensures
            r == started(max_depth),
            r.wf(),
    {
        Path {
            remaining: max_depth,
            bounces: 0,
            end: if max_depth <= 0 {
                Some(PathEnd::Black)
            } else {
                None
            },
        }
    }

    /// Whether the path has ended.
    pub fn is_done(&self) -> (r: bool)
        ensures
            r == self.end is Some,
    {
        self.end.is_some()
    }

    /// Takes the outcome of querying the scene with the current ray.
    pub fn record(&mut self, e: Event)
        requires
            old(self).wf(),
        ensures
            *final(self) == advanced(*old(self), e),
            final(self).wf(),
    {
        if self.end.is_none() {
            match e {
                Event::Miss => {
                    self.end = Some(PathEnd::Sky);
                },
                Event::Hit(b) => {
                    if b.is_scattered() {
                        self.remaining = self.remaining - 1;
                        self.bounces = self.bounces + 1;
                        if self.remaining <= 0 {
                            self.end = Some(PathEnd::Black);
                        }
                    } else {
                        self.end = Some(PathEnd::Black);
                    }
                },
            }
        }
    }
}

/// Whatever the scene answers, a path holds its bookkeeping, and the number
/// of scatter events plus the queries left is the depth it started with:
/// a path never bounces more than `max_depth` times.
pub proof fn lemma_depth_bounds_bounces(max_depth: i32, es: Seq<Event>)
    ensures
        run(max_depth, es).wf(),
        max_depth > 0 ==> run(max_depth, es).bounces + run(max_depth, es).remaining == max_depth,
        max_depth > 0 ==> run(max_depth, es).remaining >= 0,
        run(max_depth, es).bounces <= if max_depth > 0 {
            max_depth as int
        } else {
            0
        },
    decreases es.len(),
{
    if es.len() > 0 {
        lemma_depth_bounds_bounces(max_depth, es.drop_last());
    }
    if max_depth <= 0 {
        lemma_no_depth_is_black(max_depth, es);
    }
}

/// With no depth left, a path is black and bounces nowhere, whatever the
/// scene contains.
pub proof fn lemma_no_depth_is_black(max_depth: i32, es: Seq<Event>)
    requires
        max_depth <= 0,
    ensures
        run(max_depth, es).end == Some(PathEnd::Black),
        run(max_depth, es).bounces == 0,
    decreases es.len(),
{
    if es.len() > 0 {
        lemma_no_depth_is_black(max_depth, es.drop_last());
    }
}

/// In a scene without primitives, a path with depth left escapes on its
/// first query with no scatter event: its colour is the background colour
/// itself.
pub proof fn lemma_empty_scene_is_sky(max_depth: i32, max_key: u64)
    requires
        max_depth >= 1,
    ensures
        scanned(max_key, Seq::<Option<u64>>::empty(), 0).index is None,
        run(max_depth, seq![Event::Miss]).end == Some(PathEnd::Sky),
        run(max_depth, seq![Event::Miss]).bounces == 0,
{
    lemma_scan_finds_nearest(max_key, Seq::<Option<u64>>::empty());
    let es = seq![Event::Miss];
    assert(es.len() == 1 && es.last() == Event::Miss);
    assert(es.drop_last() =~= Seq::<Event>::empty());
    assert(run(max_depth, es.drop_last()) == started(max_depth));
}

} // verus!
