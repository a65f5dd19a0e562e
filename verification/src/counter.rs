use vstd::prelude::*;
use vstd::pervasive::VecAdditionalExecFns;

use crate::errors::CounterError;
use crate::node::NodeKind;

verus! {

/// Identifies a counter: the counter belonging to an element type, or a
/// user-named counter.
#[derive(PartialEq, Eq, Debug)]
pub enum CounterKey {
    Elem(NodeKind),
    Named(String),
}

/// Spec-level image of a counter key.
pub enum KeyV {
    Elem(NodeKind),
    Named(Seq<char>),
}

impl View for CounterKey {
    type V = KeyV;

    open spec fn view(&self) -> KeyV {
        match self {
            CounterKey::Elem(k) => KeyV::Elem(*k),
            CounterKey::Named(s) => KeyV::Named(s@),
        }
    }
}

impl Clone for CounterKey {
    fn clone(&self) -> (r: Self)
        ensures
            r@ == self@,
    {
        match self {
            CounterKey::Elem(k) => CounterKey::Elem(*k),
            CounterKey::Named(s) => CounterKey::Named(s.clone()),
        }
    }
}

/// A discrete mutation of a counter's component vector, ordered by
/// document position.
#[derive(PartialEq, Eq, Debug)]
pub enum CounterUpdate {
    /// Increment the component at `level` (1-based) and drop deeper
    /// components; the vector is padded with zeros up to `level` first.
    Step(usize),
    /// Replace the whole component vector.
    Assign(Vec<u64>),
}

/// Spec-level image of a counter update.
pub enum UpdateV {
    Step(usize),
    Assign(Seq<u64>),
}

impl View for CounterUpdate {
    type V = UpdateV;

    open spec fn view(&self) -> UpdateV {
        match self {
            CounterUpdate::Step(l) => UpdateV::Step(*l),
            CounterUpdate::Assign(v) => UpdateV::Assign(v@),
        }
    }
}

impl Clone for CounterUpdate {
    fn clone(&self) -> (r: Self)
        ensures
            r@ == self@,
    {
        match self {
            CounterUpdate::Step(l) => CounterUpdate::Step(*l),
            CounterUpdate::Assign(v) => {
                let w = v.clone();
                proof {
                    assert(w@ =~= v@);
                }
                CounterUpdate::Assign(w)
            },
        }
    }
}

/// Increment that stays within `u64`: the topmost value saturates.
pub open spec fn sat_inc(c: u64) -> u64 {
    if c == u64::MAX {
        c
    } else {
        (c + 1) as u64
    }
}

/// `Step(level)` on a component vector: pad with zeros to `level`
/// components if shorter, drop components deeper than `level`, then
/// increment the component at `level` (1-based). `Step(0)` is a no-op;
/// levels start at one, so no element ever contributes it.
pub open spec fn step_spec(s: Seq<u64>, level: nat) -> Seq<u64> {
    if level == 0 {
        s
    } else {
        let base = if s.len() >= level {
            s.take(level as int)
        } else {
            s + Seq::new((level - s.len()) as nat, |i: int| 0u64)
        };
        base.update(level - 1, sat_inc(base[level - 1]))
    }
}

/// One update applied to a counter value.
pub open spec fn apply_update(s: Seq<u64>, u: UpdateV) -> Seq<u64> {
    match u {
        UpdateV::Step(l) => step_spec(s, l as nat),
        UpdateV::Assign(v) => v,
    }
}

/// Folds a sequence of updates, in document order, over a starting value.
pub open spec fn replay(s0: Seq<u64>, us: Seq<UpdateV>) -> Seq<u64>
    decreases us.len(),
{
    if us.len() == 0 {
        s0
    } else {
        apply_update(replay(s0, us.drop_last()), us.last())
    }
}

/// Replay is composable: replaying a full event sequence equals replaying
/// any prefix and then continuing from the resulting state.
pub proof fn lemma_replay_composable(s0: Seq<u64>, us: Seq<UpdateV>, k: int)
    requires
        0 <= k <= us.len(),
    ensures
        replay(replay(s0, us.take(k)), us.skip(k)) == replay(s0, us),
    decreases us.len() - k,
{
    if k == us.len() {
        assert(us.take(k) =~= us);
        assert(us.skip(k) =~= Seq::<UpdateV>::empty());
    } else {
        let prior = us.drop_last();
        lemma_replay_composable(s0, prior, k);
        assert(us.take(k) =~= prior.take(k));
        assert(us.skip(k).drop_last() =~= prior.skip(k));
        assert(us.skip(k).last() == us.last());
        assert(us.skip(k).len() > 0);
    }
}

/// The exact shape of one step, for components that do not saturate:
/// within the vector it truncates and increments the last kept component;
/// beyond it, it pads with zeros and appends a one.
pub proof fn lemma_step_shape(s: Seq<u64>, level: nat)
    requires
        1 <= level,
    ensures
        level <= s.len() && s[level - 1] < u64::MAX ==> step_spec(s, level) == s.take(
            level - 1,
        ).push((s[level - 1] + 1) as u64),
        level > s.len() ==> step_spec(s, level) == s + Seq::new(
            (level - s.len() - 1) as nat,
            |i: int| 0u64,
        ).push(1u64),
{
    if level <= s.len() && s[level - 1] < u64::MAX {
        assert(step_spec(s, level) =~= s.take(level - 1).push((s[level - 1] + 1) as u64));
    }
    if level > s.len() {
        assert(step_spec(s, level) =~= s + Seq::new((level - s.len() - 1) as nat, |i: int| 0u64)
            .push(1u64));
    }
}

/// Lifts an optional update to its spec-level image.
pub open spec fn opt_update_v(o: Option<CounterUpdate>) -> Option<UpdateV> {
    match o {
        Some(u) => Some(u@),
        None => None,
    }
}

/// The counter's value immediately after processing the first `k` recorded
/// nodes: nodes that contributed no update leave the value unchanged.
pub open spec fn value_after(entries: Seq<(u64, Option<UpdateV>)>, k: int) -> Seq<u64>
    decreases k,
{
    if k <= 0 {
        Seq::empty()
    } else {
        let prev = value_after(entries, k - 1);
        match entries[k - 1].1 {
            Some(u) => apply_update(prev, u),
            None => prev,
        }
    }
}

/// The updates contributed by the recorded nodes with index in `[k, m)`,
/// in document order.
pub open spec fn updates_range(entries: Seq<(u64, Option<UpdateV>)>, k: int, m: int) -> Seq<
    UpdateV,
>
    decreases m - k,
{
    if m <= k {
        Seq::empty()
    } else {
        let init = updates_range(entries, k, m - 1);
        match entries[m - 1].1 {
            Some(u) => init.push(u),
            None => init,
        }
    }
}

/// Location queries follow the replay model: the value after the first
/// `k` recorded nodes is the replay of exactly their updates from the
/// initial (empty) vector.
pub proof fn lemma_value_after_is_replay(entries: Seq<(u64, Option<UpdateV>)>, k: int)
    ensures
        value_after(entries, k) == replay(Seq::empty(), updates_range(entries, 0, k)),
    decreases k,
{
    if k > 0 {
        lemma_value_after_is_replay(entries, k - 1);
        match entries[k - 1].1 {
            Some(u) => {
                assert(updates_range(entries, 0, k).drop_last() =~= updates_range(
                    entries,
                    0,
                    k - 1,
                ));
            },
            None => {
            },
        }
    }
}

/// Replay composability at the counter: the value after `m` nodes equals
/// the value after any earlier cut `k`, continued by replaying the
/// updates of the nodes in between.
pub proof fn lemma_counter_prefix_composable(entries: Seq<(u64, Option<UpdateV>)>, k: int, m: int)
    requires
        0 <= k <= m,
    ensures
        value_after(entries, m) == replay(value_after(entries, k), updates_range(entries, k, m)),
    decreases m - k,
{
    if m > k {
        lemma_counter_prefix_composable(entries, k, m - 1);
        match entries[m - 1].1 {
            Some(u) => {
                assert(updates_range(entries, k, m).drop_last() =~= updates_range(
                    entries,
                    k,
                    m - 1,
                ));
            },
            None => {
            },
        }
    }
}

/// A node that contributes no update is invisible to location queries:
/// the value as of that node equals the value just before it.
pub proof fn lemma_no_update_keeps_value(entries: Seq<(u64, Option<UpdateV>)>, k: int)
    requires
        0 <= k < entries.len(),
        entries[k].1 is None,
    ensures
        value_after(entries, k + 1) == value_after(entries, k),
{
}

/// Under document order a recorded location identifies its entry: the
/// index a query resolves it to is exactly where it was recorded.
pub proof fn lemma_idx_of_recorded(c: Counter, k: int)
    requires
        c.wf(),
        0 <= k < c.entries@.len(),
    ensures
        c.spec_has_loc(c.entries@[k].0),
        c.spec_idx_of(c.entries@[k].0) == k,
{
    assert(0 <= k < c.entries@.len() && (c.entries@[k]).0 == c.entries@[k].0);
    let j = c.spec_idx_of(c.entries@[k].0);
    if j != k {
        if j < k {
            assert(c.entries@[j].0 < c.entries@[k].0);
        } else {
            assert(c.entries@[k].0 < c.entries@[j].0);
        }
        assert(false);
    }
}

/// A node that contributed no event answers a location query with the
/// value of the nearest prior node, unchanged — the initial value if it
/// is the first node.
pub proof fn lemma_query_at_inactive_node(c: Counter, k: int)
    requires
        c.wf(),
        0 <= k < c.entries@.len(),
        c.entries_v()[k].1 is None,
    ensures
        c.spec_value_at(c.entries@[k].0) == value_after(c.entries_v(), k),
        k > 0 ==> c.spec_value_at(c.entries@[k].0) == c.spec_value_at(c.entries@[k - 1].0),
        k == 0 ==> c.spec_value_at(c.entries@[k].0) == Seq::<u64>::empty(),
{
    lemma_idx_of_recorded(c, k);
    lemma_no_update_keeps_value(c.entries_v(), k);
    if k > 0 {
        lemma_idx_of_recorded(c, k - 1);
    }
}

/// A counter: an append-only log of per-node update events discovered in
/// document order, frozen before location queries begin.
pub struct Counter {
    pub key: CounterKey,
    /// One entry per realized node, in document order: the node's location
    /// and the update it contributed, if any.
    pub entries: Vec<(u64, Option<CounterUpdate>)>,
    /// Whether discovery is complete; queries are rejected before then.
    pub frozen: bool,
}

impl Counter {
    /// Well-formed: entries stand in document order, which the external
    /// layout guarantees is consistent with numeric comparison.
    pub open spec fn wf(&self) -> bool {
        forall|i: int, j: int|
            0 <= i < j < self.entries@.len() ==> (#[trigger] self.entries@[i]).0 < (
            #[trigger] self.entries@[j]).0
    }

    /// The spec-level event log.
    pub open spec fn entries_v(&self) -> Seq<(u64, Option<UpdateV>)> {
        self.entries@.map_values(|e: (u64, Option<CounterUpdate>)| (e.0, opt_update_v(e.1)))
    }

    /// Whether some node was recorded at `loc`.
    pub open spec fn spec_has_loc(&self, loc: u64) -> bool {
        exists|i: int| 0 <= i < self.entries@.len() && (#[trigger] self.entries@[i]).0 == loc
    }

    /// The index of the node recorded at `loc`; unique under `wf`.
    pub open spec fn spec_idx_of(&self, loc: u64) -> int {
        choose|i: int| 0 <= i < self.entries@.len() && (#[trigger] self.entries@[i]).0 == loc
    }

    /// The counter's value as of the node at `loc`, inclusive.
    pub open spec fn spec_value_at(&self, loc: u64) -> Seq<u64> {
        value_after(self.entries_v(), self.spec_idx_of(loc) + 1)
    }

    /// An empty, unfrozen counter for `key`.
    pub fn new(key: CounterKey) -> (c: Counter)
        ensures
            c.wf(),
            c.key == key,
            c.entries@.len() == 0,
            !c.frozen,
    {
        Counter { key, entries: Vec::new(), frozen: false }
    }

    /// Appends one node's record during the discovery traversal. Document
    /// order makes each new location strictly larger than all before it.
    pub fn record(&mut self, loc: u64, upd: Option<CounterUpdate>)
        requires
            old(self).wf(),
            !old(self).frozen,
            old(self).entries@.len() > 0 ==> old(self).entries@.last().0 < loc,
        ensures
            final(self).wf(),
            !final(self).frozen,
            final(self).key == old(self).key,
            final(self).entries@ == old(self).entries@.push((loc, upd)),
    {
        proof {
            let entries = self.entries@;
            assert forall|i: int|
                0 <= i < entries.len() implies (#[trigger] entries[i]).0 < loc by {
                if i < entries.len() - 1 {
                    assert(entries[i].0 < entries[entries.len() - 1].0);
                }
            }
        }
        self.entries.push((loc, upd));
    }

    /// Ends discovery; the log is complete and queries may begin.
    pub fn freeze(&mut self)
        requires
            !old(self).frozen,
        ensures
            final(self).frozen,
            final(self).key == old(self).key,
            final(self).entries@ == old(self).entries@,
            old(self).wf() ==> final(self).wf(),
    {
        self.frozen = true;
    }

    /// Answers "value of this counter at location `loc`, inclusive".
    ///
    /// A query before the log is frozen is rejected rather than answered
    /// from a partial log; a location never recorded in the document is an
    /// error. A counter whose prefix holds no events yields the empty
    /// (initial) vector.
    pub fn at(&self, loc: u64) -> (r: Result<Vec<u64>, CounterError>)
        requires
            self.wf(),
        ensures
            !self.frozen ==> r == Err::<Vec<u64>, CounterError>(CounterError::NotYetResolved),
            self.frozen && !self.spec_has_loc(loc) ==> r == Err::<Vec<u64>, CounterError>(
                CounterError::UnknownLocation,
            ),
            self.frozen && self.spec_has_loc(loc) ==> (r matches Ok(v) && v@
                == self.spec_value_at(loc)),
    {
        if !self.frozen {
            return Err(CounterError::NotYetResolved);
        }
        let mut state: Vec<u64> = Vec::new();
        let mut i: usize = 0;
        while i < self.entries.len()
            invariant
                self.wf(),
                self.frozen,
                i <= self.entries@.len(),
                state@ == value_after(self.entries_v(), i as int),
                forall|k: int| 0 <= k < i ==> (#[trigger] self.entries@[k]).0 != loc,
            decreases self.entries@.len() - i,
        {
            let entry_loc = self.entries[i].0;
            if entry_loc > loc {
                proof {
                    assert forall|k: int|
                        0 <= k < self.entries@.len() implies (#[trigger] self.entries@[k]).0
                        != loc by {
                        if k > i {
                            assert(self.entries@[i as int].0 < self.entries@[k].0);
                        }
                    }
                }
                return Err(CounterError::UnknownLocation);
            }
            match &self.entries[i].1 {
                Some(u) => apply_to(&mut state, u),
                None => (),
            }
            proof {
                assert(self.entries_v()[i as int].1 == opt_update_v(self.entries@[i as int].1));
            }
            if entry_loc == loc {
                proof {
                    let j = self.spec_idx_of(loc);
                    assert(0 <= j < self.entries@.len() && self.entries@[j].0 == loc);
                    if j != i as int {
                        if j < i as int {
                            assert(self.entries@[j].0 < self.entries@[i as int].0);
                        } else {
                            assert(self.entries@[i as int].0 < self.entries@[j].0);
                        }
                        assert(false);
                    }
                }
                return Ok(state);
            }
            i = i + 1;
        }
        Err(CounterError::UnknownLocation)
    }
}

/// Applies one update in place.
fn apply_to(state: &mut Vec<u64>, u: &CounterUpdate)
    ensures
        final(state)@ == apply_update(old(state)@, u@),
{
    match u {
        CounterUpdate::Step(l) => {
            let level = *l;
            if level == 0 {
                return ;
            }
            proof {
                assert(old(state)@.take(old(state)@.len() as int) =~= old(state)@);
            }
            while state.len() > level
                invariant
                    state@.len() <= old(state)@.len(),
                    state@ == old(state)@.take(state@.len() as int),
                    level <= state@.len() || state@.len() == old(state)@.len(),
                decreases state@.len(),
            {
                state.pop();
                proof {
                    assert(old(state)@.take(state@.len() as int) =~= state@);
                }
            }
            let ghost base = if old(state)@.len() >= level {
                old(state)@.take(level as int)
            } else {
                old(state)@ + Seq::new((level - old(state)@.len()) as nat, |i: int| 0u64)
            };
            proof {
                assert(base.take(state@.len() as int) =~= state@);
            }
            while state.len() < level
                invariant
                    state@.len() <= level,
                    state@.len() >= old(state)@.len() || state@.len() >= level,
                    base.len() == level,
                    base == (if old(state)@.len() >= level {
                        old(state)@.take(level as int)
                    } else {
                        old(state)@ + Seq::new((level - old(state)@.len()) as nat, |i: int| 0u64)
                    }),
                    state@ == base.take(state@.len() as int),
                decreases level - state@.len(),
            {
                state.push(0);
                proof {
                    assert(state@ =~= base.take(state@.len() as int));
                }
            }
            proof {
                assert(state@ =~= base);
            }
            let c = state[level - 1];
            let bumped: u64 = if c == u64::MAX {
                c
            } else {
                c + 1
            };
            state.set(level - 1, bumped);
            proof {
                assert(state@ =~= apply_update(old(state)@, u@));
            }
        },
        CounterUpdate::Assign(v) => {
            let w = v.clone();
            proof {
                assert(w@ =~= v@);
            }
            *state = w;
        },
    }
}

} // verus!
