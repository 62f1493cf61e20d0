//! Per-symbol sequence assignment: one monotonic counter per symbol,
//! consulted when the venue supplies no sequence number of its own. The
//! caller that shares one instance across tasks guards it with a lock, so
//! each increment reads and writes the map as one atomic unit.

use vstd::prelude::*;
use vstd::hash_map::StringHashMap;

verus! {

/// The value the assigner hands out next for `sym`: one past the stored
/// counter, or 1 for a symbol's first trade.
pub open spec fn spec_next_seq(m: Map<Seq<char>, u64>, sym: Seq<char>) -> u64 {
    if m.contains_key(sym) {
        (m[sym] + 1) as u64
    } else {
        1u64
    }
}

/// The counter map after `k` assignments for `sym`, starting from `m`.
pub open spec fn spec_assigned_after(m: Map<Seq<char>, u64>, sym: Seq<char>, k: nat) -> Map<
    Seq<char>,
    u64,
>
    decreases k,
{
    if k == 0 {
        m
    } else {
        let prev = spec_assigned_after(m, sym, (k - 1) as nat);
        prev.insert(sym, spec_next_seq(prev, sym))
    }
}

/// The mapping from symbol to last-assigned sequence number.
pub struct SequenceState {
    counters: StringHashMap<u64>,
}

impl View for SequenceState {
    type V = Map<Seq<char>, u64>;

    closed spec fn view(&self) -> Map<Seq<char>, u64> {
        self.counters@
    }
}

impl SequenceState {
    /// A fresh state with no symbol seen yet.
    pub fn new() -> (r: SequenceState)
        ensures
            r@ == Map::<Seq<char>, u64>::empty(),
    {
        SequenceState { counters: StringHashMap::new() }
    }

    /// Assigns the next sequence number for `symbol`: 1 on the symbol's
    /// first trade, and afterwards always one more than the last assigned
    /// value, with no gap and no repeat.
    pub fn next_seq(&mut self, symbol: &str) -> (r: u64)
        requires
            old(self)@.contains_key(symbol@) ==> old(self)@[symbol@] < u64::MAX,
        ensures
            r == spec_next_seq(old(self)@, symbol@),
            final(self)@ == old(self)@.insert(symbol@, r),
            r >= 1,
    {
        let c: u64 = match self.counters.get(symbol) {
            Some(x) => *x + 1,
            None => 1,
        };
        self.counters.insert(symbol.to_owned(), c);
        c
    }
}

/// After `j` assignments for a symbol the assigner has never seen, the
/// stored counter is exactly `j`.
proof fn lemma_counter_after(m: Map<Seq<char>, u64>, sym: Seq<char>, j: nat)
    requires
        !m.contains_key(sym),
        j <= u64::MAX,
    ensures
        j >= 1 ==> spec_assigned_after(m, sym, j).contains_key(sym) && spec_assigned_after(
            m,
            sym,
            j,
        )[sym] == j,
    decreases j,
{
    if j == 1 {
        assert(spec_assigned_after(m, sym, 0) == m);
        assert(spec_assigned_after(m, sym, 1) == m.insert(sym, spec_next_seq(m, sym)));
        assert(spec_next_seq(m, sym) == 1u64);
    } else if j > 1 {
        lemma_counter_after(m, sym, (j - 1) as nat);
        let prev = spec_assigned_after(m, sym, (j - 1) as nat);
        assert(prev[sym] == j - 1);
        assert(spec_assigned_after(m, sym, j) == prev.insert(sym, spec_next_seq(prev, sym)));
        assert(spec_next_seq(prev, sym) == j);
    }
}

/// Sequence monotonicity: starting from a state that has not seen `sym`,
/// `k` consecutive assignments for `sym` return exactly 1, 2, ..., k — a
/// strictly increasing, gap-free run.
pub proof fn lemma_sequence_gapless(m: Map<Seq<char>, u64>, sym: Seq<char>, k: nat)
    requires
        !m.contains_key(sym),
        k <= u64::MAX,
    ensures
        forall|j: nat|
            1 <= j <= k ==> spec_next_seq(
                #[trigger] spec_assigned_after(m, sym, (j - 1) as nat),
                sym,
            ) == j,
{
    assert forall|j: nat|
        1 <= j <= k implies spec_next_seq(
        #[trigger] spec_assigned_after(m, sym, (j - 1) as nat),
        sym,
    ) == j by {
        lemma_counter_after(m, sym, (j - 1) as nat);
    }
}

} // verus!
