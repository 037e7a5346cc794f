//! Closest-hit selection of a scene aggregate.
//!
//! Each primitive of the scene answers a query with its hit parameter, or
//! with nothing. The parameters are carried as keys whose integer order is
//! the order of the parameters: the aggregate keeps the nearest answer seen
//! so far and only accepts an answer strictly below it, so that the first of
//! several equally near primitives wins.
use vstd::prelude::*;

verus! {

/// The state of a scan over the primitives of a scene.
#[derive(Clone, Copy, Debug, PartialEq, Eq, Structural)]
pub struct NearestHit {
    /// Exclusive upper bound that an answer must stay below to be taken.
    pub bound: u64,
    /// Position of the primitive whose answer is the nearest so far.
    pub index: Option<usize>,
}

/// The scan after primitive `i` answered `key`.
pub open spec fn offered(s: NearestHit, i: usize, key: Option<u64>) -> NearestHit {
    match key {
        Some(k) => if k < s.bound {
            NearestHit { bound: k, index: Some(i) }
        } else {
            s
        },
        None => s,
    }
}

/// The scan that started below `max` after the first `n` answers of `keys`,
/// the primitive at position `i` having answered `keys[i]`.
pub open spec fn scanned(max: u64, keys: Seq<Option<u64>>, n: nat) -> NearestHit
    decreases n,
{
    if n == 0 {
        NearestHit { bound: max, index: None }
    } else {
        offered(scanned(max, keys, (n - 1) as nat), (n - 1) as usize, keys[n - 1])
    }
}

/// Whether the answer at position `i` lies below `max`.
pub open spec fn accepted(max: u64, keys: Seq<Option<u64>>, i: int) -> bool {
    0 <= i < keys.len() && keys[i] is Some && keys[i]->Some_0 < max
}

/// `i` is the first position whose answer is the least of those below `max`.
pub open spec fn is_nearest(max: u64, keys: Seq<Option<u64>>, i: int) -> bool {
    &&& accepted(max, keys, i)
    &&& forall|j: int| accepted(max, keys, j) ==> keys[i]->Some_0 <= keys[j]->Some_0
    &&& forall|j: int| 0 <= j < i && accepted(max, keys, j) ==> keys[i]->Some_0 < keys[j]->Some_0
}

impl NearestHit {
    /// A scan that has seen nothing and accepts answers below `max`.
    pub fn new(max: u64) -> (r: NearestHit)
        ensures
            r == (NearestHit { bound: max, index: None }),
    {
        NearestHit { bound: max, index: None }
    }

    /// Takes the answer `key` of the primitive at position `i`: it becomes the
    /// nearest when it lies below the bound, which then shrinks to it.
    pub fn offer(&mut self, i: usize, key: Option<u64>)
        ensures
            *final(self) == offered(*old(self), i, key),
    {
        match key {
            Some(k) => {
                if k < self.bound {
                    self.bound = k;
                    self.index = Some(i);
                }
            },
            None => {},
        }
    }
}

/// Bound and chosen position of a scan over the first `n` answers.
pub proof fn lemma_scanned(max: u64, keys: Seq<Option<u64>>, n: nat)
    requires
        n <= keys.len(),
        keys.len() <= usize::MAX,
    ensures
        ({
            let s = scanned(max, keys, n);
            match s.index {
                Some(i) => is_nearest(max, keys.take(n as int), i as int) && s.bound
                    == keys[i as int]->Some_0,
                None => s.bound == max && forall|j: int| !accepted(max, keys.take(n as int), j),
            }
        }),
    decreases n,
{
    if n > 0 {
        lemma_scanned(max, keys, (n - 1) as nat);
        let pre = keys.take(n - 1);
        let cur = keys.take(n as int);
        assert forall|j: int| 0 <= j < n - 1 implies cur[j] == pre[j] by {}
        assert forall|j: int| #[trigger] accepted(max, cur, j) && j < n - 1 implies accepted(
            max,
            pre,
            j,
        ) by {}
    }
}

/// The nearest answer below `max`, when there is one: the scan over all the
/// primitives reports the position whose answer is least among those below
/// `max`, the first one on a tie, and reports nothing exactly when no answer
/// lies below `max` (in particular for a scene with no primitives).
pub proof fn lemma_scan_finds_nearest(max: u64, keys: Seq<Option<u64>>)
    requires
        keys.len() <= usize::MAX,
    ensures
        ({
            let s = scanned(max, keys, keys.len());
            &&& s.index is Some ==> is_nearest(max, keys, s.index->Some_0 as int)
            &&& s.index is None <==> forall|j: int| !accepted(max, keys, j)
        }),
{
    lemma_scanned(max, keys, keys.len());
    assert(keys.take(keys.len() as int) =~= keys);
}

/// Scans the answers `keys` of all the primitives, in order, and returns the
/// position of the nearest one below `max`.
pub fn nearest_hit(max: u64, keys: &Vec<Option<u64>>) -> (r: Option<usize>)
    ensures
        r == scanned(max, keys@, keys@.len()).index,
        r is Some ==> is_nearest(max, keys@, r->Some_0 as int),
        r is None <==> forall|j: int| !accepted(max, keys@, j),
{
    let mut s = NearestHit::new(max);
    let mut i: usize = 0;
    while i < keys.len()
        invariant
            i <= keys@.len(),
            s == scanned(max, keys@, i as nat),
        decreases keys@.len() - i,
    {
        s.offer(i, keys[i]);
        i = i + 1;
    }
    proof {
        lemma_scan_finds_nearest(max, keys@);
    }
    s.index
}

} // verus!
