use vstd::prelude::*;

verus! {

/// The movable scan: an owned, non-empty, ordered sequence of points that a
/// registration run transforms in place and hands back at its end.
pub struct MovableScan<T> {
    points: Vec<T>,
}

/// `after` holds, in order, what `f` makes of each point of `before`.
pub open spec fn mapped_by<T, F: Fn(&T) -> T>(f: F, before: Seq<T>, after: Seq<T>) -> bool {
    &&& after.len() == before.len()
    &&& forall|i: int| 0 <= i < before.len() ==> f.ensures((&before[i],), #[trigger] after[i])
}

impl<T> View for MovableScan<T> {
    type V = Seq<T>;

    closed spec fn view(&self) -> Seq<T> {
        self.points@
    }
}

impl<T> MovableScan<T> {
    /// The scan holds at least one point.
    pub open spec fn wf(&self) -> bool {
        self@.len() > 0
    }

    /// Takes ownership of the points; returns `None` for an empty sequence, whose
    /// center of mass is undefined.
    pub fn new(points: Vec<T>) -> (r: Option<MovableScan<T>>)
        ensures
            r is None <==> points@.len() == 0,
            r matches Some(s) ==> s@ == points@ && s.wf(),
    {
        if points.len() == 0 {
            None
        } else {
            Some(MovableScan { points })
        }
    }

    /// How many points the scan holds.
    pub fn len(&self) -> (r: usize)
        ensures
            r == self@.len(),
    {
        self.points.len()
    }

    /// The current points, in order.
    pub fn points(&self) -> (r: &[T])
        ensures
            r@ == self@,
    {
        self.points.as_slice()
    }

    /// Replaces every point by what `f` makes of it (a translation or a rotation
    /// of each point), keeping the order and the number of points.
    pub fn transform_each<F: Fn(&T) -> T>(&mut self, f: F)
        requires
            forall|i: int| 0 <= i < old(self)@.len() ==> f.requires((&old(self)@[i],)),
        ensures
            mapped_by(f, old(self)@, final(self)@),
            final(self)@.len() == old(self)@.len(),
            old(self).wf() ==> final(self).wf(),
    {
        let n = self.points.len();
        let ghost before = self.points@;
        assert forall|j: int| 0 <= j < n implies f.requires((&before[j],)) by {
            assert(before[j] == old(self)@[j]);
        }
        let mut i: usize = 0;
        while i < n
            invariant
                n == before.len(),
                self.points@.len() == n,
                i <= n,
                forall|j: int| i <= j < n ==> self.points@[j] == before[j],
                forall|j: int| 0 <= j < i ==> f.ensures((&before[j],), #[trigger] self.points@[j]),
                forall|j: int| 0 <= j < n ==> f.requires((&before[j],)),
            decreases n - i,
        {
            assert(self.points@[i as int] == before[i as int]);
            let p = f(&self.points[i]);
            self.points.set(i, p);
            i = i + 1;
        }
    }

    /// Gives back the points, in their current order.
    pub fn into_inner(self) -> (r: Vec<T>)
        ensures
            r@ == self@,
    {
        self.points
    }
}

/// Translating, then rotating every point of the movable scan (one step of a
/// registration run) leaves as many points as were given.
pub proof fn lemma_count_kept<T, F: Fn(&T) -> T, G: Fn(&T) -> T>(
    given: Seq<T>,
    translated: Seq<T>,
    rotated: Seq<T>,
    f: F,
    g: G,
)
    requires
        mapped_by(f, given, translated),
        mapped_by(g, translated, rotated),
    ensures
        rotated.len() == given.len(),
{
}

} // verus!
