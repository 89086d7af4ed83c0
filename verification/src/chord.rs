//! Chord matching on top of a raw keyboard event stream.
//!
//! A chord is a **set** of keys - order doesn't matter for activation.
//! The matcher is a small state machine: when the held-key set transitions
//! into a registered chord, [`ChordEvent::Start`] fires; when it
//! transitions out, [`ChordEvent::End`] fires. Never overlapping `Start`s -
//! transitioning directly from chord A to chord B emits `End(A)` then
//! `Start(B)`.
//!
//! Ambiguity resolution: if two registered chords match the current held
//! set, the chord with more keys wins (longest match); among equally long
//! matches the one registered first wins.

use std::fmt::Debug;
use std::hash::Hash;
use std::time::Instant;

use vstd::prelude::*;
use vstd::std_specs::cmp::PartialEqSpec;

use crate::event::{Event, EventKind};
use crate::key::Key;

verus! {

broadcast use vstd::seq_lib::seq_to_set_is_finite;

/// Whether `k` occurs in `keys`.
fn contains_key(keys: &[Key], k: Key) -> (found: bool)
    ensures
        found == keys@.contains(k),
{
    let mut i: usize = 0;
    while i < keys.len()
        invariant
            0 <= i <= keys@.len(),
            forall|j: int| 0 <= j < i ==> keys@[j] != k,
        decreases keys@.len() - i,
    {
        if keys[i] == k {
            assert(keys@[i as int] == k);
            return true;
        }
        i += 1;
    }
    false
}

/// A set of physical keys whose simultaneous-held state triggers a chord.
#[derive(Debug)]
pub struct Chord {
    keys: Vec<Key>,
}

impl View for Chord {
    type V = Set<Key>;

    /// The chord as a set of keys.
    closed spec fn view(&self) -> Set<Key> {
        self.keys@.to_set()
    }
}

impl Clone for Chord {
    fn clone(&self) -> (copy: Self)
        ensures
            copy@ == self@,
    {
        proof {
            use_type_invariant(self);
        }
        let mut keys: Vec<Key> = Vec::new();
        let mut i: usize = 0;
        while i < self.keys.len()
            invariant
                0 <= i <= self.keys@.len(),
                keys@ == self.keys@.subrange(0, i as int),
            decreases self.keys@.len() - i,
        {
            keys.push(self.keys[i]);
            i += 1;
        }
        assert(keys@ == self.keys@);
        Chord { keys }
    }
}

impl PartialEq for Chord {
    /// Two chords are equal when they hold the same set of keys.
    fn eq(&self, other: &Self) -> (same: bool) {
        proof {
            use_type_invariant(self);
            use_type_invariant(other);
            self.keys@.unique_seq_to_set();
            other.keys@.unique_seq_to_set();
        }
        if self.keys.len() != other.keys.len() {
            return false;
        }
        let mut i: usize = 0;
        while i < self.keys.len()
            invariant
                0 <= i <= self.keys@.len(),
                forall|j: int| 0 <= j < i ==> other.keys@.contains(#[trigger] self.keys@[j]),
            decreases self.keys@.len() - i,
        {
            if !contains_key(other.keys.as_slice(), self.keys[i]) {
                assert(self@.contains(self.keys@[i as int]));
                return false;
            }
            i += 1;
        }
        assert forall|k: Key| self@.contains(k) implies other@.contains(k) by {
            let j = choose|j: int| 0 <= j < self.keys@.len() && self.keys@[j] == k;
            assert(other.keys@.contains(self.keys@[j]));
        }
        proof {
            vstd::set_lib::lemma_subset_equality(self@, other@);
        }
        true
    }
}

impl vstd::std_specs::cmp::PartialEqSpecImpl for Chord {
    open spec fn obeys_eq_spec() -> bool {
        true
    }

    open spec fn eq_spec(&self, other: &Self) -> bool {
        self@ == other@
    }
}

impl Eq for Chord {
}

/// Whether a chord with key set `chord` is triggered by the held set
/// `held`: it is non-empty and every one of its keys is held.
pub open spec fn chord_matches(chord: Set<Key>, held: Set<Key>) -> bool {
    chord.len() > 0 && chord.subset_of(held)
}

impl Chord {
    /// Each key of a chord is stored once.
    #[verifier::type_invariant]
    spec fn keys_distinct(self) -> bool {
        self.keys@.no_duplicates()
    }

    /// Builds a chord from the given keys; repeated keys count once.
    pub fn of<const N: usize>(keys: [Key; N]) -> (chord: Self)
        ensures
            chord@ == keys@.to_set(),
    {
        Self::from_keys(keys.as_slice())
    }

    /// Builds a chord from a list of keys of any length; repeated keys
    /// count once.
    pub fn from_keys(keys: &[Key]) -> (chord: Self)
        ensures
            chord@ == keys@.to_set(),
    {
        let mut out: Vec<Key> = Vec::new();
        let mut i: usize = 0;
        while i < keys.len()
            invariant
                0 <= i <= keys@.len(),
                out@.no_duplicates(),
                out@.to_set() == keys@.subrange(0, i as int).to_set(),
            decreases keys@.len() - i,
        {
            let k = keys[i];
            let ghost prefix = keys@.subrange(0, i as int);
            assert(keys@.subrange(0, i + 1) == prefix.push(k));
            proof {
                prefix.lemma_push_to_set_commute(k);
            }
            if !contains_key(out.as_slice(), k) {
                let ghost before = out@;
                out.push(k);
                proof {
                    before.lemma_push_to_set_commute(k);
                }
            } else {
                assert(out@.to_set().contains(k));
                assert(out@.to_set().insert(k) =~= out@.to_set());
            }
            i += 1;
        }
        assert(keys@.subrange(0, keys@.len() as int) == keys@);
        Chord { keys: out }
    }

    /// The keys of this chord, each once, in no particular order.
    pub fn keys(&self) -> (keys: &[Key])
        ensures
            keys@.to_set() == self@,
            keys@.no_duplicates(),
    {
        proof {
            use_type_invariant(self);
        }
        self.keys.as_slice()
    }

    /// Number of distinct keys in this chord.
    pub fn len(&self) -> (n: usize)
        ensures
            n == self@.len(),
    {
        proof {
            use_type_invariant(self);
            self.keys@.unique_seq_to_set();
        }
        self.keys.len()
    }

    /// Whether this chord has no keys.
    pub fn is_empty(&self) -> (empty: bool)
        ensures
            empty == (self@.len() == 0),
    {
        proof {
            use_type_invariant(self);
            self.keys@.unique_seq_to_set();
        }
        self.keys.len() == 0
    }

    /// Whether every key in this chord is currently held. An empty chord
    /// never matches.
    pub fn matches(&self, held: &[Key]) -> (m: bool)
        ensures
            m == chord_matches(self@, held@.to_set()),
    {
        proof {
            use_type_invariant(self);
            self.keys@.unique_seq_to_set();
        }
        if self.keys.len() == 0 {
            return false;
        }
        let mut i: usize = 0;
        while i < self.keys.len()
            invariant
                0 <= i <= self.keys@.len(),
                forall|j: int| 0 <= j < i ==> held@.contains(#[trigger] self.keys@[j]),
            decreases self.keys@.len() - i,
        {
            if !contains_key(held, self.keys[i]) {
                assert(self@.contains(self.keys@[i as int]));
                assert(!held@.to_set().contains(self.keys@[i as int]));
                return false;
            }
            i += 1;
        }
        assert forall|k: Key| self@.contains(k) implies held@.to_set().contains(k) by {
            let j = choose|j: int| 0 <= j < self.keys@.len() && self.keys@[j] == k;
            assert(held@.contains(self.keys@[j]));
        }
        true
    }
}


/// Events emitted by a chord matcher.
#[derive(Debug, PartialEq)]
pub enum ChordEvent<Id: Clone + Debug> {
    Start { id: Id, time: Instant },
    End { id: Id, time: Instant },
}

impl<Id: Clone + Debug> Clone for ChordEvent<Id> {
    fn clone(&self) -> (copy: Self)
        ensures
            match (*self, copy) {
                (ChordEvent::Start { id: a, time: s }, ChordEvent::Start { id: b, time: t }) => cloned::<Id>(a, b) && s == t,
                (ChordEvent::End { id: a, time: s }, ChordEvent::End { id: b, time: t }) => cloned::<Id>(a, b) && s == t,
                _ => false,
            },
    {
        match self {
            ChordEvent::Start { id, time } => ChordEvent::Start { id: id.clone(), time: *time },
            ChordEvent::End { id, time } => ChordEvent::End { id: id.clone(), time: *time },
        }
    }
}

// ---------------------------------------------------------------------
// The abstract model of the matcher.
//
// A registry is the sequence of registered (id, key set) pairs, in
// registration order. The matcher state is the set of held keys and the
// registry index of the active chord, if any. A transition yields the
// edges it emits: `(true, i)` starts entry `i`, `(false, i)` ends it.
// ---------------------------------------------------------------------

/// Entry `i` is a longest match of `held` among the first `n` entries of
/// `reg`: it matches, no matching entry is longer, and every earlier
/// matching entry is strictly shorter (earlier registration wins ties).
pub open spec fn is_longest_match_within<Id>(
    reg: Seq<(Id, Set<Key>)>,
    held: Set<Key>,
    n: int,
    i: int,
) -> bool {
    &&& 0 <= i < n <= reg.len()
    &&& chord_matches(reg[i].1, held)
    &&& forall|j: int|
        0 <= j < n && chord_matches(#[trigger] reg[j].1, held) ==> reg[j].1.len() <= reg[i].1.len()
    &&& forall|j: int|
        0 <= j < i && chord_matches(#[trigger] reg[j].1, held) ==> reg[j].1.len() < reg[i].1.len()
}

/// Entry `i` is the longest match of `held` in the whole registry.
pub open spec fn is_longest_match<Id>(reg: Seq<(Id, Set<Key>)>, held: Set<Key>, i: int) -> bool {
    is_longest_match_within(reg, held, reg.len() as int, i)
}

/// The registry index of the chord that `held` activates: the longest
/// matching chord, the earliest registered among equally long ones; `None`
/// when no registered chord matches.
pub open spec fn longest_match<Id>(reg: Seq<(Id, Set<Key>)>, held: Set<Key>) -> Option<int> {
    if exists|i: int| is_longest_match(reg, held, i) {
        Some(choose|i: int| is_longest_match(reg, held, i))
    } else {
        None
    }
}

/// Whether two optional registry entries denote the same chord identity, as
/// the id type's equality decides.
pub open spec fn same_id<Id: PartialEq>(
    reg: Seq<(Id, Set<Key>)>,
    a: Option<int>,
    b: Option<int>,
) -> bool {
    match (a, b) {
        (None, None) => true,
        (Some(x), Some(y)) => reg[x].0.eq_spec(&reg[y].0),
        _ => false,
    }
}

/// The held set after an event of the given kind.
pub open spec fn held_after(held: Set<Key>, kind: EventKind) -> Set<Key> {
    match kind {
        EventKind::KeyDown(k) => held.insert(k),
        EventKind::KeyUp(k) => held.remove(k),
        EventKind::KeyRepeat(_) => held,
    }
}

/// An optional registry index as an optional `int`.
pub open spec fn as_index(i: Option<usize>) -> Option<int> {
    match i {
        Some(n) => Some(n as int),
        None => None,
    }
}

/// Whether keeping the active entry is a possible outcome, given the new
/// longest match `next`: both are absent; or both are present and either
/// are the same registration, or the id type's equality may call their
/// ids equal (it must when the id type's equality is specified).
pub open spec fn may_keep<Id: PartialEq>(
    reg: Seq<(Id, Set<Key>)>,
    next: Option<int>,
    active: Option<int>,
) -> bool {
    match (next, active) {
        (None, None) => true,
        (Some(n), Some(a)) => n == a || (Id::obeys_eq_spec() ==> reg[n].0.eq_spec(&reg[a].0)),
        _ => false,
    }
}

/// Whether switching to the new longest match `next` is a possible
/// outcome: exactly one of the two is present; or both are, they are
/// different registrations, and the id type's equality may call their ids
/// different (it must when the id type's equality is specified).
pub open spec fn may_switch<Id: PartialEq>(
    reg: Seq<(Id, Set<Key>)>,
    next: Option<int>,
    active: Option<int>,
) -> bool {
    match (next, active) {
        (None, None) => false,
        (Some(n), Some(a)) => n != a && (Id::obeys_eq_spec() ==> !reg[n].0.eq_spec(
            &reg[a].0,
        )),
        _ => true,
    }
}

/// The edges of a switch from `active` to `next`: the end of the active
/// entry (if any) followed by the start of the new one (if any).
pub open spec fn switch_edges(next: Option<int>, active: Option<int>) -> Seq<(bool, int)> {
    let ends = match active {
        Some(a) => seq![(false, a)],
        None => Seq::empty(),
    };
    let starts = match next {
        Some(n) => seq![(true, n)],
        None => Seq::empty(),
    };
    ends + starts
}

/// Every transition either keeps or switches; when the id type's equality
/// is specified, exactly one of the two is possible.
pub proof fn lemma_outcome_determined<Id: PartialEq>(
    reg: Seq<(Id, Set<Key>)>,
    next: Option<int>,
    active: Option<int>,
)
    ensures
        may_keep(reg, next, active) || may_switch(reg, next, active),
        Id::obeys_eq_spec() ==> may_keep(reg, next, active) != may_switch(reg, next, active),
{
}

/// Starts and ends alternate, beginning with a start; each end closes the
/// entry that the start before it opened; a chord is active exactly when
/// the last edge is a start, and it is that start's entry.
pub open spec fn alternating(edges: Seq<(bool, int)>, active: Option<int>) -> bool {
    &&& forall|i: int| 0 <= i < edges.len() ==> (#[trigger] edges[i]).0 == (i % 2 == 0)
    &&& forall|i: int, j: int|
        #![trigger edges[i], edges[j]]
        0 <= i && j == i + 1 && j < edges.len() && i % 2 == 0 ==> edges[j].1 == edges[i].1
    &&& (active is Some) == (edges.len() % 2 == 1)
    &&& active is Some ==> active->0 == edges[edges.len() - 1].1
}

/// Number of start edges.
pub open spec fn count_starts(edges: Seq<(bool, int)>) -> nat
    decreases edges.len(),
{
    if edges.len() == 0 {
        0
    } else {
        count_starts(edges.drop_last()) + if edges.last().0 {
            1nat
        } else {
            0nat
        }
    }
}

/// Number of end edges.
pub open spec fn count_ends(edges: Seq<(bool, int)>) -> nat
    decreases edges.len(),
{
    if edges.len() == 0 {
        0
    } else {
        count_ends(edges.drop_last()) + if edges.last().0 {
            0nat
        } else {
            1nat
        }
    }
}

/// A switch keeps the edge history alternating.
proof fn lemma_switch_alternates(edges: Seq<(bool, int)>, next: Option<int>, active: Option<int>)
    requires
        alternating(edges, active),
        !(next is None && active is None),
    ensures
        alternating(edges + switch_edges(next, active), next),
{
    let all = edges + switch_edges(next, active);
    let n = edges.len() as int;
    assert forall|i: int| 0 <= i < n implies all[i] == edges[i] by {}
    match active {
        Some(a) => {
            assert(all[n] == (false, a));
            assert(all[n - 1] == edges[n - 1]);
            if next is Some {
                assert(all[n + 1] == (true, next->0));
            }
        },
        None => {
            assert(all[n] == (true, next->0));
        },
    }
}

proof fn lemma_counts_alternating(edges: Seq<(bool, int)>)
    requires
        forall|i: int| 0 <= i < edges.len() ==> (#[trigger] edges[i]).0 == (i % 2 == 0),
    ensures
        count_starts(edges) == (edges.len() + 1) / 2,
        count_ends(edges) == edges.len() / 2,
    decreases edges.len(),
{
    if edges.len() > 0 {
        let init = edges.drop_last();
        assert forall|i: int| 0 <= i < init.len() implies (#[trigger] init[i]).0 == (i % 2 == 0) by {
            assert(init[i] == edges[i]);
        }
        lemma_counts_alternating(init);
        assert(edges.last() == edges[edges.len() - 1]);
    }
}

/// `ev` is the event for `edge`, stamped with `time`: a start or an end
/// as the edge says, carrying a clone of the entry's id.
pub open spec fn event_for_edge<Id: Clone + Debug>(
    reg: Seq<(Id, Set<Key>)>,
    ev: ChordEvent<Id>,
    edge: (bool, int),
    time: Instant,
) -> bool {
    match ev {
        ChordEvent::Start { id, time: t } => edge.0 && cloned::<Id>(reg[edge.1].0, id) && t == time,
        ChordEvent::End { id, time: t } => !edge.0 && cloned::<Id>(reg[edge.1].0, id) && t == time,
    }
}

/// `evs` are exactly the events for `edges`, in order.
pub open spec fn events_for_edges<Id: Clone + Debug>(
    reg: Seq<(Id, Set<Key>)>,
    evs: Seq<ChordEvent<Id>>,
    edges: Seq<(bool, int)>,
    time: Instant,
) -> bool {
    &&& evs.len() == edges.len()
    &&& forall|i: int| 0 <= i < evs.len() ==> event_for_edge(reg, #[trigger] evs[i], edges[i], time)
}

/// The active entry agrees with the longest match of the held set: it is
/// that entry, or one with the same id.
pub open spec fn active_agrees<Id: PartialEq>(
    reg: Seq<(Id, Set<Key>)>,
    held: Set<Key>,
    active: Option<int>,
) -> bool {
    let m = longest_match(reg, held);
    active == m || same_id(reg, m, active)
}

/// The registry model of a list of registrations.
pub open spec fn registry_of<Id>(registered: Seq<(Id, Chord)>) -> Seq<(Id, Set<Key>)> {
    registered.map_values(|e: (Id, Chord)| (e.0, e.1@))
}

/// At most one entry is a longest match.
pub proof fn lemma_longest_match_unique<Id>(
    reg: Seq<(Id, Set<Key>)>,
    held: Set<Key>,
    n: int,
    i: int,
    j: int,
)
    requires
        is_longest_match_within(reg, held, n, i),
        is_longest_match_within(reg, held, n, j),
    ensures
        i == j,
{
    if i < j {
        assert(reg[i].1.len() < reg[j].1.len());
    } else if j < i {
        assert(reg[j].1.len() < reg[i].1.len());
    }
}

/// A longest match found among all entries is the one `longest_match`
/// names.
pub proof fn lemma_longest_match_is<Id>(reg: Seq<(Id, Set<Key>)>, held: Set<Key>, i: int)
    requires
        is_longest_match(reg, held, i),
    ensures
        longest_match(reg, held) == Some(i),
{
    let c = choose|c: int| is_longest_match(reg, held, c);
    lemma_longest_match_unique(reg, held, reg.len() as int, c, i);
}

/// With no matching entry there is no longest match.
pub proof fn lemma_no_match<Id>(reg: Seq<(Id, Set<Key>)>, held: Set<Key>)
    requires
        forall|j: int| 0 <= j < reg.len() ==> !chord_matches(#[trigger] reg[j].1, held),
    ensures
        longest_match(reg, held) is None,
{
}

/// Nothing matches the empty held set.
pub proof fn lemma_nothing_matches_empty<Id>(reg: Seq<(Id, Set<Key>)>)
    ensures
        longest_match(reg, Set::<Key>::empty()) is None,
{
    assert forall|j: int| 0 <= j < reg.len() implies !chord_matches(
        #[trigger] reg[j].1,
        Set::<Key>::empty(),
    ) by {
        if chord_matches(reg[j].1, Set::<Key>::empty()) {
            assert(reg[j].1 =~= Set::<Key>::empty());
        }
    }
    lemma_no_match(reg, Set::<Key>::empty());
}

proof fn lemma_longest_match_some<Id>(reg: Seq<(Id, Set<Key>)>, held: Set<Key>)
    ensures
        longest_match(reg, held) matches Some(i) ==> is_longest_match(reg, held, i),
{
}

/// Releasing any key of the active entry `a` forces a switch away from it,
/// unless a chord that still matches may share its id: the transition's
/// first edge is the end of `a`, and `a` does not stay active.
pub proof fn lemma_release_ends_active<Id: PartialEq>(
    reg: Seq<(Id, Set<Key>)>,
    held: Set<Key>,
    a: int,
    k: Key,
)
    requires
        0 <= a < reg.len(),
        reg[a].1.contains(k),
        forall|j: int|
            0 <= j < reg.len() && chord_matches(#[trigger] reg[j].1, held.remove(k))
                ==> Id::obeys_eq_spec() && !reg[j].0.eq_spec(&reg[a].0),
    ensures
        ({
            let next = longest_match(reg, held_after(held, EventKind::KeyUp(k)));
            &&& !may_keep(reg, next, Some(a))
            &&& may_switch(reg, next, Some(a))
            &&& switch_edges(next, Some(a))[0] == (false, a)
            &&& next != Some(a)
        }),
{
    let next = longest_match(reg, held.remove(k));
    lemma_longest_match_some(reg, held.remove(k));
    if next is Some {
        assert(chord_matches(reg[next->0].1, held.remove(k)));
        if next->0 == a {
            assert(!held.remove(k).contains(k));
        }
    }
}

/// The chord-matching state machine. Feed it every raw event of a tap;
/// each call reports the chord transitions that event causes.
pub struct MatcherState<Id: Clone + Debug + Eq + Hash> {
    registered: Vec<(Id, Chord)>,
    held: Vec<Key>,
    active: Option<usize>,
    /// Every edge emitted so far, in order.
    history: Ghost<Seq<(bool, int)>>,
}

impl<Id: Clone + Debug + Eq + Hash> MatcherState<Id> {
    /// The registered chords, in registration order.
    pub closed spec fn registry(&self) -> Seq<(Id, Set<Key>)> {
        registry_of(self.registered@)
    }

    /// The keys currently held.
    pub closed spec fn held_keys(&self) -> Set<Key> {
        self.held@.to_set()
    }

    /// The registry index of the active chord, if one is active.
    pub closed spec fn active_entry(&self) -> Option<int> {
        as_index(self.active)
    }

    /// Every edge this matcher has emitted since it was made, in order:
    /// `(true, i)` is the start of entry `i`, `(false, i)` its end.
    pub closed spec fn history(&self) -> Seq<(bool, int)> {
        self.history@
    }

    /// Well-formedness: the held keys are stored once each; the active
    /// entry is a registry index, present exactly when some chord matches
    /// and, when the id type's equality is specified, agreeing with the
    /// longest match; the history alternates and ends at the active entry.
    pub closed spec fn wf(&self) -> bool {
        &&& self.held@.no_duplicates()
        &&& match self.active {
            Some(a) => a < self.registered@.len(),
            None => true,
        }
        &&& (self.active is Some) == (longest_match(self.registry(), self.held_keys()) is Some)
        &&& Id::obeys_eq_spec() ==> active_agrees(
            self.registry(),
            self.held_keys(),
            self.active_entry(),
        )
        &&& alternating(self.history@, self.active_entry())
    }

    /// A chord is active exactly when some registered chord matches the
    /// held keys, and the active entry is a registry index. When the id
    /// type's equality is specified, the active chord is the longest match
    /// or a registration with the same id.
    pub proof fn lemma_active_is_longest_match(&self)
        requires
            self.wf(),
        ensures
            (self.active_entry() is Some) == (longest_match(self.registry(), self.held_keys()) is Some),
            self.active_entry() matches Some(a) ==> 0 <= a < self.registry().len(),
            Id::obeys_eq_spec() ==> active_agrees(
                self.registry(),
                self.held_keys(),
                self.active_entry(),
            ),
    {
    }

    /// Chords never overlap: the emitted edges alternate start, end, start,
    /// end, ..., each end closing the chord the start before it opened,
    /// and a chord is active exactly when the last edge is its start.
    pub proof fn lemma_history_alternates(&self)
        requires
            self.wf(),
        ensures
            alternating(self.history(), self.active_entry()),
    {
    }

    /// Every start has a matching end: once no key is held, no chord is
    /// active and as many starts as ends have been emitted.
    pub proof fn lemma_released_is_balanced(&self)
        requires
            self.wf(),
            self.held_keys() == Set::<Key>::empty(),
        ensures
            self.active_entry() is None,
            count_starts(self.history()) == count_ends(self.history()),
    {
        lemma_nothing_matches_empty(self.registry());
        lemma_counts_alternating(self.history@);
    }

    /// A matcher with the given registrations, no key held and no chord
    /// active.
    pub fn new(registered: Vec<(Id, Chord)>) -> (state: Self)
        ensures
            state.wf(),
            state.registry() == registry_of(registered@),
            state.held_keys() == Set::<Key>::empty(),
            state.active_entry() is None,
            state.history() == Seq::<(bool, int)>::empty(),
    {
        let state = MatcherState {
            registered,
            held: Vec::new(),
            active: None,
            history: Ghost(Seq::empty()),
        };
        proof {
            assert(state.held@.to_set() =~= Set::<Key>::empty());
            lemma_nothing_matches_empty(state.registry());
        }
        state
    }

    /// Records `k` as held.
    fn press(&mut self, k: Key)
        requires
            old(self).held@.no_duplicates(),
        ensures
            final(self).held@.no_duplicates(),
            final(self).held@.to_set() == old(self).held@.to_set().insert(k),
            final(self).registered == old(self).registered,
            final(self).active == old(self).active,
            final(self).history == old(self).history,
    {
        if contains_key(self.held.as_slice(), k) {
            assert(self.held@.to_set().insert(k) =~= self.held@.to_set());
        } else {
            let ghost before = self.held@;
            self.held.push(k);
            proof {
                before.lemma_push_to_set_commute(k);
            }
        }
    }

    /// Records `k` as no longer held.
    fn release(&mut self, k: Key)
        requires
            old(self).held@.no_duplicates(),
        ensures
            final(self).held@.no_duplicates(),
            final(self).held@.to_set() == old(self).held@.to_set().remove(k),
            final(self).registered == old(self).registered,
            final(self).active == old(self).active,
            final(self).history == old(self).history,
    {
        let mut i: usize = 0;
        while i < self.held.len()
            invariant
                0 <= i <= self.held@.len(),
                self.held@ == old(self).held@,
                self.held@.no_duplicates(),
                self.registered == old(self).registered,
                self.active == old(self).active,
                self.history == old(self).history,
                forall|j: int| 0 <= j < i ==> self.held@[j] != k,
            decreases self.held@.len() - i,
        {
            if self.held[i] == k {
                let ghost before = self.held@;
                self.held.remove(i);
                proof {
                    let after = self.held@;
                    assert(after == before.remove(i as int));
                    assert forall|a: int, b: int|
                        0 <= a < after.len() && 0 <= b < after.len() && a != b implies after[a]
                        != after[b] by {
                        let a2 = if a < i { a } else { a + 1 };
                        let b2 = if b < i { b } else { b + 1 };
                        assert(after[a] == before[a2]);
                        assert(after[b] == before[b2]);
                    }
                    assert forall|x: Key| after.to_set().contains(x) <==> before.to_set().remove(
                        k,
                    ).contains(x) by {
                        if after.to_set().contains(x) {
                            let j = choose|j: int| 0 <= j < after.len() && after[j] == x;
                            let j2 = if j < i { j } else { j + 1 };
                            assert(before[j2] == x);
                            assert(j2 != i);
                        }
                        if before.to_set().remove(k).contains(x) {
                            let j = choose|j: int| 0 <= j < before.len() && before[j] == x;
                            assert(j != i);
                            let j2 = if j < i { j } else { j - 1 };
                            assert(after[j2] == x);
                        }
                    }
                    assert(after.to_set() =~= before.to_set().remove(k));
                }
                return;
            }
            i += 1;
        }
        assert(self.held@.to_set().remove(k) =~= self.held@.to_set());
    }

    /// Feeds one raw event to the matcher and returns the chord transitions
    /// it causes, in order. The held set takes the event in; then, on a
    /// change of active chord identity, the `End` of the previously active
    /// chord (if any) is emitted and then the `Start` of the new longest
    /// match (if any). The same registration always has the same identity;
    /// two different registrations have it when the id type's `==` says
    /// so. Key repeats are ignored: chord activation is edge-triggered.
    pub fn process(&mut self, event: Event) -> (emitted: Vec<ChordEvent<Id>>)
        requires
            old(self).wf(),
        ensures
            final(self).wf(),
            final(self).registry() == old(self).registry(),
            final(self).held_keys() == held_after(old(self).held_keys(), event.kind),
            event.kind is KeyRepeat ==> emitted@.len() == 0 && *final(self) == *old(self),
            !(event.kind is KeyRepeat) ==> ({
                let reg = old(self).registry();
                let next = longest_match(reg, final(self).held_keys());
                let active = old(self).active_entry();
                ||| {
                    &&& may_keep(reg, next, active)
                    &&& emitted@.len() == 0
                    &&& final(self).active_entry() == active
                    &&& final(self).history() == old(self).history()
                }
                ||| {
                    &&& may_switch(reg, next, active)
                    &&& events_for_edges(reg, emitted@, switch_edges(next, active), event.time)
                    &&& final(self).active_entry() == next
                    &&& final(self).history() == old(self).history() + switch_edges(next, active)
                }
            }),
    {
        let ghost reg = self.registry();
        match event.kind {
            EventKind::KeyDown(k) => {
                self.press(k);
            },
            EventKind::KeyUp(k) => {
                self.release(k);
            },
            EventKind::KeyRepeat(_) => {
                return Vec::new();
            },
        }
        assert(self.registry() == reg);
        let next = self.longest_match();
        let ghost next_i = as_index(next);
        let ghost active_i = self.active_entry();
        proof {
            lemma_longest_match_some(reg, self.held_keys());
        }
        let same = match (next, self.active) {
            (None, None) => true,
            (Some(n), Some(a)) => n == a || self.registered[n].0 == self.registered[a].0,
            _ => false,
        };
        let mut emitted: Vec<ChordEvent<Id>> = Vec::new();
        if !same {
            if let Some(prev) = self.active {
                let id = self.registered[prev].0.clone();
                emitted.push(ChordEvent::End { id, time: event.time });
            }
            if let Some(n) = next {
                let id = self.registered[n].0.clone();
                emitted.push(ChordEvent::Start { id, time: event.time });
            }
            proof {
                lemma_switch_alternates(self.history@, next_i, active_i);
            }
            self.active = next;
            self.history = Ghost(self.history@ + switch_edges(next_i, active_i));
            assert(emitted@.len() == switch_edges(next_i, active_i).len());
        }
        emitted
    }

    /// The longest registered chord matching the held keys; ties go to the
    /// earliest registration.
    pub fn longest_match(&self) -> (found: Option<usize>)
        ensures
            match found {
                Some(i) => longest_match(self.registry(), self.held_keys()) == Some(i as int),
                None => longest_match(self.registry(), self.held_keys()) is None,
            },
    {
        let ghost reg = self.registry();
        let ghost held = self.held_keys();
        let n = self.registered.len();
        let mut best: Option<usize> = None;
        let mut best_len: usize = 0;
        let mut i: usize = 0;
        while i < n
            invariant
                n == self.registered@.len(),
                reg == self.registry(),
                held == self.held_keys(),
                reg.len() == n,
                0 <= i <= n,
                match best {
                    Some(b) => is_longest_match_within(reg, held, i as int, b as int) && best_len
                        == reg[b as int].1.len(),
                    None => forall|j: int| 0 <= j < i ==> !chord_matches(#[trigger] reg[j].1, held),
                },
            decreases n - i,
        {
            let entry = &self.registered[i];
            assert(reg[i as int].1 == entry.1@);
            if entry.1.matches(self.held.as_slice()) {
                let l = entry.1.len();
                match best {
                    None => {
                        best = Some(i);
                        best_len = l;
                    },
                    Some(b) => {
                        if l > best_len {
                            best = Some(i);
                            best_len = l;
                        }
                    },
                }
            }
            i += 1;
        }
        match best {
            Some(b) => {
                proof {
                    lemma_longest_match_is(reg, held, b as int);
                }
            },
            None => {
                proof {
                    lemma_no_match(reg, held);
                }
            },
        }
        best
    }
}

} // verus!
