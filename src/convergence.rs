use vstd::prelude::*;

verus! {

/// How many of the flags hold.
pub open spec fn count_true(s: Seq<bool>) -> nat
    decreases s.len(),
{
    if s.len() == 0 {
        0
    } else {
        count_true(s.drop_last()) + if s.last() {
            1nat
        } else {
            0nat
        }
    }
}

/// The outcome of the final quality check: of `total` movable points, `converged`
/// have their nearest reference point within the tolerance on both axes.
#[derive(Debug, Clone, Copy, PartialEq, Eq, Structural)]
pub struct ConvergenceTally {
    pub converged: usize,
    pub total: usize,
}

impl ConvergenceTally {
    /// Tallies one flag per movable point, set where that point lies within the
    /// tolerance of its nearest reference point on both axes.
    pub fn from_flags(within: &Vec<bool>) -> (r: ConvergenceTally)
        ensures
            r.converged == count_true(within@),
            r.total == within@.len(),
            r.converged <= r.total,
    {
        let mut converged: usize = 0;
        let mut i: usize = 0;
        while i < within.len()
            invariant
                i <= within@.len(),
                converged == count_true(within@.take(i as int)),
                converged <= i,
            decreases within@.len() - i,
        {
            proof {
                assert(within@.take(i + 1).drop_last() == within@.take(i as int));
            }
            if within[i] {
                converged = converged + 1;
            }
            i = i + 1;
        }
        proof {
            assert(within@.take(i as int) == within@);
        }
        ConvergenceTally { converged, total: within.len() }
    }

    /// Whether every movable point is within the tolerance: the ratio is then one.
    pub fn is_complete(&self) -> (r: bool)
        ensures
            r == (self.converged == self.total),
    {
        self.converged == self.total
    }

    /// Whether no movable point is within the tolerance: the ratio is then zero.
    pub fn is_empty(&self) -> (r: bool)
        ensures
            r == (self.converged == 0),
    {
        self.converged == 0
    }
}

/// At most every flag holds.
pub proof fn lemma_count_bounded(s: Seq<bool>)
    ensures
        count_true(s) <= s.len(),
    decreases s.len(),
{
    if s.len() > 0 {
        lemma_count_bounded(s.drop_last());
    }
}

/// The count reaches the length exactly when every flag holds.
pub proof fn lemma_count_full(s: Seq<bool>)
    ensures
        count_true(s) == s.len() <==> forall|i: int| 0 <= i < s.len() ==> s[i],
    decreases s.len(),
{
    if s.len() > 0 {
        let p = s.drop_last();
        lemma_count_full(p);
        lemma_count_bounded(p);
        if count_true(s) == s.len() {
            assert forall|i: int| 0 <= i < s.len() implies s[i] by {
                if i < s.len() - 1 {
                    assert(p[i] == s[i]);
                }
            }
        }
        if forall|i: int| 0 <= i < s.len() ==> s[i] {
            assert forall|i: int| 0 <= i < p.len() implies p[i] by {
                assert(s[i]);
            }
            assert(s[s.len() - 1]);
        }
    }
}

/// The count is zero exactly when no flag holds.
pub proof fn lemma_count_zero(s: Seq<bool>)
    ensures
        count_true(s) == 0 <==> forall|i: int| 0 <= i < s.len() ==> !s[i],
    decreases s.len(),
{
    if s.len() > 0 {
        let p = s.drop_last();
        lemma_count_zero(p);
        if forall|i: int| 0 <= i < s.len() ==> !s[i] {
            assert forall|i: int| 0 <= i < p.len() implies !p[i] by {
                assert(!s[i]);
            }
            assert(!s[s.len() - 1]);
        }
        if count_true(s) == 0 {
            assert forall|i: int| 0 <= i < s.len() implies !s[i] by {
                if i < s.len() - 1 {
                    assert(p[i] == s[i]);
                }
            }
        }
    }
}

/// The convergence ratio `converged / total` of a tally of flags lies in the unit
/// interval, and is one exactly when every movable point is within the tolerance.
pub proof fn lemma_ratio_in_unit_interval(within: Seq<bool>, t: ConvergenceTally)
    requires
        t.converged == count_true(within),
        t.total == within.len(),
    ensures
        0 <= t.converged <= t.total,
        t.converged == t.total <==> forall|i: int| 0 <= i < within.len() ==> within[i],
        t.converged == 0 <==> forall|i: int| 0 <= i < within.len() ==> !within[i],
{
    lemma_count_bounded(within);
    lemma_count_full(within);
    lemma_count_zero(within);
}

} // verus!
