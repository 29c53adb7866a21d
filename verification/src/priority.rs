use vstd::prelude::*;
use core::cmp::Ordering;
use vstd::std_specs::cmp::PartialOrdSpec;

verus! {

/// Message priority level, from the least to the most urgent.
#[derive(Debug, Clone, Copy, PartialEq, Eq, Structural, Ord)]
pub enum Priority {
    Low,
    Normal,
    High,
    Emergency,
}

impl Priority {
    /// The position of a priority in the order Low < Normal < High < Emergency.
    pub open spec fn rank(self) -> nat {
        match self {
            Priority::Low => 0,
            Priority::Normal => 1,
            Priority::High => 2,
            Priority::Emergency => 3,
        }
    }

    /// The numeric level of this priority (0 for `Low` up to 3 for `Emergency`).
    pub fn level(&self) -> (r: u8)
        ensures
            r == self.rank(),
    {
        match self {
            Priority::Low => 0,
            Priority::Normal => 1,
            Priority::High => 2,
            Priority::Emergency => 3,
        }
    }
}

/// The comparison that orders two priorities by rank.
pub open spec fn compare_ranks(a: Priority, b: Priority) -> Ordering {
    if a.rank() < b.rank() {
        Ordering::Less
    } else if a.rank() == b.rank() {
        Ordering::Equal
    } else {
        Ordering::Greater
    }
}

impl PartialOrd for Priority {
    fn partial_cmp(&self, other: &Priority) -> (r: Option<Ordering>)
        ensures
            (r == Some(Ordering::Less)) <==> self.rank() < other.rank(),
            (r == Some(Ordering::Equal)) <==> self.rank() == other.rank(),
            (r == Some(Ordering::Greater)) <==> self.rank() > other.rank(),
    {
        let a = self.level();
        let b = other.level();
        if a < b {
            Some(Ordering::Less)
        } else if a == b {
            Some(Ordering::Equal)
        } else {
            Some(Ordering::Greater)
        }
    }
}

impl vstd::std_specs::cmp::PartialOrdSpecImpl for Priority {
    open spec fn obeys_partial_cmp_spec() -> bool {
        true
    }

    open spec fn partial_cmp_spec(&self, other: &Priority) -> Option<Ordering> {
        Some(compare_ranks(*self, *other))
    }
}

impl Default for Priority {
    fn default() -> (r: Priority)
        ensures
            r == Priority::Normal,
    {
        Priority::Normal
    }
}

/// The priorities form a chain Low < Normal < High < Emergency: each level
/// ranks strictly above the one before it, and two priorities compare less,
/// equal or greater exactly as their ranks do, so the order is total and
/// transitive.
pub proof fn lemma_priority_order(a: Priority, b: Priority)
    ensures
        Priority::Low.rank() == 0,
        Priority::Normal.rank() == 1,
        Priority::High.rank() == 2,
        Priority::Emergency.rank() == 3,
        (a.partial_cmp_spec(&b) == Some(Ordering::Less)) <==> a.rank() < b.rank(),
        (a.partial_cmp_spec(&b) == Some(Ordering::Equal)) <==> a.rank() == b.rank(),
        (a.partial_cmp_spec(&b) == Some(Ordering::Greater)) <==> a.rank() > b.rank(),
        (a.partial_cmp_spec(&b) == Some(Ordering::Equal)) <==> a == b,
        (a.partial_cmp_spec(&b) == Some(Ordering::Less)) <==> (b.partial_cmp_spec(&a)
            == Some(Ordering::Greater)),
{
}

/// The comparison of priorities is transitive: if `a < b` and `b < c` then
/// `a < c`.
pub proof fn lemma_priority_order_transitive(a: Priority, b: Priority, c: Priority)
    requires
        a.partial_cmp_spec(&b) == Some(Ordering::Less),
        b.partial_cmp_spec(&c) == Some(Ordering::Less),
    ensures
        a.partial_cmp_spec(&c) == Some(Ordering::Less),
{
}

/// Every priority ranks between Low and Emergency: Low is below each other
/// level and Emergency above each other level.
pub proof fn lemma_priority_extremes(p: Priority)
    ensures
        p != Priority::Low ==> Priority::Low.partial_cmp_spec(&p) == Some(Ordering::Less),
        p != Priority::Emergency ==> p.partial_cmp_spec(&Priority::Emergency) == Some(
            Ordering::Less,
        ),
{
}

} // verus!
