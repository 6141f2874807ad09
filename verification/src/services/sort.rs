//! The orders in which an issue list can be sorted, and the cycle through them.
use vstd::prelude::*;

verus! {

/// How a list of issues is ordered.
#[derive(Debug, Clone, Copy, PartialEq, Eq, Structural)]
pub enum SortMode {
    KeyAsc,
    KeyDesc,
    UpdatedAsc,
    UpdatedDesc,
    PriorityAsc,
    PriorityDesc,
}

/// The `ORDER BY` clause of JQL for a sort mode.
pub open spec fn order_by_text(m: SortMode) -> Seq<char> {
    match m {
        SortMode::KeyAsc => "ORDER BY key ASC"@,
        SortMode::KeyDesc => "ORDER BY key DESC"@,
        SortMode::UpdatedAsc => "ORDER BY updated ASC"@,
        SortMode::UpdatedDesc => "ORDER BY updated DESC"@,
        SortMode::PriorityAsc => "ORDER BY priority ASC"@,
        SortMode::PriorityDesc => "ORDER BY priority DESC"@,
    }
}

/// The short label of a sort mode shown in a list's title.
pub open spec fn label_text(m: SortMode) -> Seq<char> {
    match m {
        SortMode::KeyAsc => "Key ↑"@,
        SortMode::KeyDesc => "Key ↓"@,
        SortMode::UpdatedAsc => "Updated ↑"@,
        SortMode::UpdatedDesc => "Updated ↓"@,
        SortMode::PriorityAsc => "Priority ↓"@,
        SortMode::PriorityDesc => "Priority ↑"@,
    }
}

/// The mode that follows `m` in the cycle key, updated, priority, each ascending then
/// descending.
pub open spec fn next_mode(m: SortMode) -> SortMode {
    match m {
        SortMode::KeyAsc => SortMode::KeyDesc,
        SortMode::KeyDesc => SortMode::UpdatedAsc,
        SortMode::UpdatedAsc => SortMode::UpdatedDesc,
        SortMode::UpdatedDesc => SortMode::PriorityAsc,
        SortMode::PriorityAsc => SortMode::PriorityDesc,
        SortMode::PriorityDesc => SortMode::KeyAsc,
    }
}

/// `next_mode` applied `n` times.
pub open spec fn next_mode_n(m: SortMode, n: nat) -> SortMode
    decreases n,
{
    if n == 0 {
        m
    } else {
        next_mode(next_mode_n(m, (n - 1) as nat))
    }
}

impl SortMode {
    /// The JQL `ORDER BY` clause of this mode.
    pub fn jql_order_by(&self) -> (r: &'static str)
        ensures
            r@ == order_by_text(*self),
    {
        match self {
            SortMode::KeyAsc => "ORDER BY key ASC",
            SortMode::KeyDesc => "ORDER BY key DESC",
            SortMode::UpdatedAsc => "ORDER BY updated ASC",
            SortMode::UpdatedDesc => "ORDER BY updated DESC",
            SortMode::PriorityAsc => "ORDER BY priority ASC",
            SortMode::PriorityDesc => "ORDER BY priority DESC",
        }
    }

    /// The label of this mode.
    pub fn label(&self) -> (r: &'static str)
        ensures
            r@ == label_text(*self),
    {
        match self {
            SortMode::KeyAsc => "Key ↑",
            SortMode::KeyDesc => "Key ↓",
            SortMode::UpdatedAsc => "Updated ↑",
            SortMode::UpdatedDesc => "Updated ↓",
            SortMode::PriorityAsc => "Priority ↓",
            SortMode::PriorityDesc => "Priority ↑",
        }
    }

    /// The mode that follows this one in the cycle.
    pub fn next(&self) -> (r: SortMode)
        ensures
            r == next_mode(*self),
    {
        match self {
            SortMode::KeyAsc => SortMode::KeyDesc,
            SortMode::KeyDesc => SortMode::UpdatedAsc,
            SortMode::UpdatedAsc => SortMode::UpdatedDesc,
            SortMode::UpdatedDesc => SortMode::PriorityAsc,
            SortMode::PriorityAsc => SortMode::PriorityDesc,
            SortMode::PriorityDesc => SortMode::KeyAsc,
        }
    }
}

/// Cycling the sort mode six times comes back to where it started, and no fewer
/// steps do.
pub proof fn lemma_sort_cycle(m: SortMode)
    ensures
        next_mode_n(m, 6) == m,
        forall|n: nat| 0 < n < 6 ==> #[trigger] next_mode_n(m, n) != m,
{
    reveal_with_fuel(next_mode_n, 7);
    assert forall|n: nat| 0 < n < 6 implies #[trigger] next_mode_n(m, n) != m by {
        reveal_with_fuel(next_mode_n, 7);
    }
}

/// Every sort mode is reached from every other by cycling: the cycle visits them all.
pub proof fn lemma_sort_cycle_total(a: SortMode, b: SortMode)
    ensures
        exists|n: nat| n < 6 && #[trigger] next_mode_n(a, n) == b,
{
    reveal_with_fuel(next_mode_n, 7);
    assert(next_mode_n(a, 0) == a);
    assert(next_mode_n(a, 1) == next_mode(a));
    assert(next_mode_n(a, 2) == next_mode(next_mode(a)));
    assert(next_mode_n(a, 3) == next_mode(next_mode(next_mode(a))));
    assert(next_mode_n(a, 4) == next_mode(next_mode(next_mode(next_mode(a)))));
    assert(next_mode_n(a, 5) == next_mode(next_mode(next_mode(next_mode(next_mode(a))))));
}


/// Whether `m` orders from the largest value down.
pub open spec fn is_descending(m: SortMode) -> bool {
    m == SortMode::KeyDesc || m == SortMode::UpdatedDesc || m == SortMode::PriorityDesc
}

/// Whether `t` ends with `suffix`.
pub open spec fn ends_with(t: Seq<char>, suffix: Seq<char>) -> bool {
    suffix.len() <= t.len() && t.subrange(t.len() - suffix.len(), t.len() as int) == suffix
}



/// Each clause is an `ORDER BY` clause that ends with its mode's direction: ` DESC` for
/// a descending mode, ` ASC` for an ascending one.
pub proof fn lemma_order_by_direction(m: SortMode)
    ensures
        order_by_text(m).len() >= 9 && order_by_text(m).subrange(0, 9) == "ORDER BY "@,
        is_descending(m) ==> ends_with(order_by_text(m), " DESC"@),
        !is_descending(m) ==> ends_with(order_by_text(m), " ASC"@),
{
    reveal_strlit("ORDER BY key ASC");
    reveal_strlit("ORDER BY key DESC");
    reveal_strlit("ORDER BY updated ASC");
    reveal_strlit("ORDER BY updated DESC");
    reveal_strlit("ORDER BY priority ASC");
    reveal_strlit("ORDER BY priority DESC");
    reveal_strlit("ORDER BY ");
    reveal_strlit(" DESC");
    reveal_strlit(" ASC");
    let t = order_by_text(m);
    assert(t.subrange(0, 9) =~= "ORDER BY "@);
    if is_descending(m) {
        assert(t.subrange(t.len() - 5, t.len() as int) =~= " DESC"@);
    } else {
        assert(t.subrange(t.len() - 4, t.len() as int) =~= " ASC"@);
    }
}

/// An ascending mode and the mode after it in the cycle order one field both ways:
/// their clauses are the same but for `ASC` made `DESC`.
pub proof fn lemma_order_by_pairs(m: SortMode)
    requires
        !is_descending(m),
    ensures
        is_descending(next_mode(m)),
        order_by_text(next_mode(m)) == order_by_text(m).subrange(0, order_by_text(m).len() - 3) + "DESC"@,
{
    reveal_strlit("ORDER BY key ASC");
    reveal_strlit("ORDER BY key DESC");
    reveal_strlit("ORDER BY updated ASC");
    reveal_strlit("ORDER BY updated DESC");
    reveal_strlit("ORDER BY priority ASC");
    reveal_strlit("ORDER BY priority DESC");
    reveal_strlit("DESC");
    let t = order_by_text(m);
    assert(order_by_text(next_mode(m)) =~= t.subrange(0, t.len() - 3) + "DESC"@);
}

/// Different modes give different clauses.
pub proof fn lemma_order_by_distinct(a: SortMode, b: SortMode)
    requires
        a != b,
    ensures
        order_by_text(a) != order_by_text(b),
{
    reveal_strlit("ORDER BY key ASC");
    reveal_strlit("ORDER BY key DESC");
    reveal_strlit("ORDER BY updated ASC");
    reveal_strlit("ORDER BY updated DESC");
    reveal_strlit("ORDER BY priority ASC");
    reveal_strlit("ORDER BY priority DESC");
    let (s, t) = (order_by_text(a), order_by_text(b));
    if s.len() == t.len() {
        if s[9] == t[9] {
            assert(s[s.len() - 4] != t[t.len() - 4]);
        } else {
            assert(s[9] != t[9]);
        }
    }
}

} // verus!
