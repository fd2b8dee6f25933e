use vstd::prelude::*;

verus! {

/// Whether the deadline `deadline` has passed at time `now`, both counted in
/// seconds since the Unix epoch. A deadline passes only once the clock is
/// strictly beyond it, so waiting goes on while `now <= deadline`.
pub open spec fn spec_deadline_passed(now: u64, deadline: u64) -> bool {
    now > deadline
}

/// Whether the deadline has passed at time `now`: the test that ends the
/// wait for a deadline.
pub fn deadline_passed(now: u64, deadline: u64) -> (res: bool)
    ensures
        res == spec_deadline_passed(now, deadline),
        res <==> now > deadline,
        !res <==> now <= deadline,
{
    now > deadline
}

/// A deadline counts as passed exactly when the clock is strictly beyond it:
/// at the deadline itself and before it, the wait goes on.
pub proof fn lemma_deadline_passed_exactly_after(now: u64, deadline: u64)
    ensures
        spec_deadline_passed(now, deadline) <==> now > deadline,
        now <= deadline ==> !spec_deadline_passed(now, deadline),
        deadline < u64::MAX ==> spec_deadline_passed((deadline + 1) as u64, deadline),
        !spec_deadline_passed(deadline, deadline),
{
}

/// Once a deadline has passed it stays passed: any later time is past it too.
pub proof fn lemma_deadline_stays_passed(earlier: u64, later: u64, deadline: u64)
    requires
        earlier <= later,
        spec_deadline_passed(earlier, deadline),
    ensures
        spec_deadline_passed(later, deadline),
{
}

} // verus!
