//! Ephemeris bookkeeping: the body roster with host-side physical
//! parameters `P`, and the last known state `S` of each body.

use std::collections::HashMap;
use vstd::prelude::*;
use super::roster::{ids_distinct, parents_first, RosterEntry};

verus! {

/// The hash map keyed by `i32` behaves as its map view says.
proof fn lemma_i32_map_obeys_model()
    ensures
        vstd::std_specs::hash::obeys_key_model::<i32>(),
        vstd::std_specs::hash::builds_valid_hashers::<std::hash::RandomState>(),
{
    broadcast use vstd::std_specs::hash::group_hash_axioms;
}

/// Parameters and state of each of the first `n` catalogued bodies whose
/// state is known, in roster order.
pub open spec fn known_list<P, S>(t: BodyTable<P, S>, n: nat) -> Seq<(P, S)>
    decreases n,
{
    if n == 0 {
        Seq::empty()
    } else {
        let rest = known_list(t, (n - 1) as nat);
        match t.state_of(t.roster()[n - 1].id) {
            Some(st) => rest.push((t.params()[n - 1], st)),
            None => rest,
        }
    }
}

/// State that the refresh step of roster position `i` builds on, for a pass
/// that starts from table `before` and ends in table `after`: nothing for a
/// heliocentric step, the body's own last state for a kept one, and for a
/// relative step the parent's state as the pass has left it when the parent
/// was refreshed earlier in the pass, its state before the pass otherwise.
pub open spec fn refresh_prior<P, S>(before: BodyTable<P, S>, after: BodyTable<P, S>, i: int) -> Option<S> {
    let roster = before.roster();
    match refresh_step_spec(roster, before.known_ids(), i) {
        RefreshStep::Heliocentric => None,
        RefreshStep::Keep => before.state_of(roster[i].id),
        RefreshStep::Relative { parent, .. } => if exists|j: int| 0 <= j < i && roster[j].id == parent {
            after.state_of(parent)
        } else {
            before.state_of(parent)
        },
    }
}

/// Index of the first roster entry with `id`.
pub open spec fn first_index(roster: Seq<RosterEntry>, id: i32) -> Option<int> {
    if exists|j: int| 0 <= j < roster.len() && roster[j].id == id {
        Some(choose|j: int| 0 <= j < roster.len() && roster[j].id == id
            && forall|k: int| 0 <= k < j ==> roster[k].id != id)
    } else {
        None
    }
}

/// How a refresh obtains one body's new state.
#[derive(Debug, Clone, Copy, PartialEq, Eq, Structural)]
pub enum RefreshStep {
    /// Propagate the body's elements around the Sun.
    Heliocentric,
    /// Propagate the body's elements around `parent`, whose state is known
    /// at this point of the pass, using the gravitational parameter of
    /// roster entry `parent_index` (or the Sun's when the parent is not
    /// catalogued).
    Relative { parent: i32, parent_index: Option<usize> },
    /// Keep the last known state (the zero state when none is known).
    Keep,
}

/// Ids whose state is known when a refresh reaches roster position `i`:
/// those known before the pass, and every body processed earlier in it.
pub open spec fn known_at(roster: Seq<RosterEntry>, known: Set<i32>, i: int, id: i32) -> bool {
    known.contains(id) || exists|j: int| 0 <= j < i && roster[j].id == id
}

/// Refresh step for roster position `i`.
pub open spec fn refresh_step_spec(roster: Seq<RosterEntry>, known: Set<i32>, i: int) -> RefreshStep {
    let e = roster[i];
    if !e.has_orbit {
        RefreshStep::Keep
    } else {
        match e.parent {
            None => RefreshStep::Heliocentric,
            Some(p) => if known_at(roster, known, i, p) {
                RefreshStep::Relative {
                    parent: p,
                    parent_index: match first_index(roster, p) {
                        Some(j) => Some(j as usize),
                        None => None,
                    },
                }
            } else {
                RefreshStep::Keep
            },
        }
    }
}

/// Roster entries paired with host-side physical parameters, and the last
/// known state of each body.
pub struct BodyTable<P, S> {
    bodies: Vec<(RosterEntry, P)>,
    states: HashMap<i32, S>,
}

impl<P, S> BodyTable<P, S> {
    /// Roster, in catalogue order.
    pub closed spec fn roster(&self) -> Seq<RosterEntry> {
        self.bodies@.map_values(|b: (RosterEntry, P)| b.0)
    }

    /// Physical parameters, aligned with the roster.
    pub closed spec fn params(&self) -> Seq<P> {
        self.bodies@.map_values(|b: (RosterEntry, P)| b.1)
    }

    /// Last known state of body `id`.
    pub closed spec fn state_of(&self, id: i32) -> Option<S> {
        self.states@.get(id)
    }

    /// Ids whose state is known.
    pub closed spec fn known_ids(&self) -> Set<i32> {
        self.states@.dom()
    }

    /// Parameters and roster entries always come in pairs.
    pub proof fn lemma_params_aligned(&self)
        ensures
            self.params().len() == self.roster().len(),
    {
    }

    /// An empty table.
    pub fn new() -> (t: Self)
        ensures
            t.roster().len() == 0,
            t.params().len() == 0,
            forall|id: i32| t.state_of(id) is None,
    {
        BodyTable { bodies: Vec::new(), states: HashMap::new() }
    }

    /// Replace the roster and forget every known state.
    pub fn set_bodies(&mut self, bodies: Vec<(RosterEntry, P)>)
        ensures
            final(self).roster() == bodies@.map_values(|b: (RosterEntry, P)| b.0),
            final(self).params() == bodies@.map_values(|b: (RosterEntry, P)| b.1),
            final(self).params().len() == final(self).roster().len(),
            forall|id: i32| final(self).state_of(id) is None,
    {
        self.bodies = bodies;
        self.states = HashMap::new();
    }

    /// Number of catalogued bodies.
    pub fn len(&self) -> (n: usize)
        ensures
            n == self.roster().len(),
    {
        self.bodies.len()
    }

    /// Roster entry at position `i`.
    pub fn entry(&self, i: usize) -> (e: RosterEntry)
        requires
            i < self.roster().len(),
        ensures
            e == self.roster()[i as int],
    {
        self.bodies[i].0
    }

    /// Physical parameters at position `i`.
    pub fn params_at(&self, i: usize) -> (p: &P)
        requires
            i < self.roster().len(),
        ensures
            *p == self.params()[i as int],
    {
        &self.bodies[i].1
    }

    /// Record `state` as the state of body `id`.
    pub fn put_state(&mut self, id: i32, state: S)
        ensures
            final(self).roster() == old(self).roster(),
            final(self).params() == old(self).params(),
            final(self).state_of(id) == Some(state),
            forall|other: i32| other != id ==> final(self).state_of(other) == old(self).state_of(other),
    {
        proof { lemma_i32_map_obeys_model(); }
        self.states.insert(id, state);
    }

    /// Index of the first catalogued body with `id`.
    pub fn index_of(&self, id: i32) -> (r: Option<usize>)
        ensures
            r == (match first_index(self.roster(), id) {
                Some(j) => Some(j as usize),
                None => None,
            }),
            r matches Some(i) ==> i < self.roster().len() && self.roster()[i as int].id == id,
            first_index(self.roster(), id) matches Some(j) ==> 0 <= j < self.roster().len(),
    {
        let ghost roster = self.roster();
        let mut i: usize = 0;
        while i < self.bodies.len()
            invariant
                roster == self.roster(),
                roster.len() == self.bodies@.len(),
                i <= self.bodies@.len(),
                forall|k: int| 0 <= k < i ==> roster[k].id != id,
            decreases self.bodies@.len() - i,
        {
            if self.bodies[i].0.id == id {
                assert(roster[i as int].id == id);
                let ghost w = choose|j: int| 0 <= j < roster.len() && roster[j].id == id
                    && forall|k: int| 0 <= k < j ==> roster[k].id != id;
                assert(w == i as int) by {
                    if w < i as int {
                        assert(roster[w].id != id);
                    }
                    if w > i as int {
                        assert(roster[i as int].id != id);
                    }
                }
                return Some(i);
            }
            i = i + 1;
        }
        None
    }

    /// Whether a state is known for body `id`.
    pub fn has_state(&self, id: i32) -> (b: bool)
        ensures
            b == self.known_ids().contains(id),
            b == (self.state_of(id) is Some),
    {
        proof { lemma_i32_map_obeys_model(); }
        let b = self.states.contains_key(&id);
        assert(b == self.states@.contains_key(id)) by {
            broadcast use vstd::std_specs::hash::group_hash_axioms;
        }
        b
    }
}

impl<P: Copy, S: Copy> BodyTable<P, S> {
    /// Last known state of body `id`.
    pub fn get(&self, id: i32) -> (r: Option<S>)
        ensures
            r == self.state_of(id),
    {
        proof { lemma_i32_map_obeys_model(); }
        match self.states.get(&id) {
            Some(v) => {
                assert(self.states@.contains_key(id) && self.states@[id] == *v) by {
                    broadcast use vstd::std_specs::hash::group_hash_axioms;
                }
                Some(*v)
            },
            None => {
                assert(!self.states@.contains_key(id)) by {
                    broadcast use vstd::std_specs::hash::group_hash_axioms;
                }
                None
            },
        }
    }

    /// Pin a body's parameters and state: an already catalogued body (first
    /// entry with the same id) has its entry and parameters replaced in
    /// place, a new body is appended to the roster.
    #[verifier::rlimit(30)]
    pub fn set_state(&mut self, entry: RosterEntry, params: P, state: S)
        ensures
            final(self).state_of(entry.id) == Some(state),
            forall|other: i32| other != entry.id ==> final(self).state_of(other) == old(self).state_of(other),
            match first_index(old(self).roster(), entry.id) {
                Some(j) => {
                    &&& final(self).roster() == old(self).roster().update(j, entry)
                    &&& final(self).params() == old(self).params().update(j, params)
                },
                None => {
                    &&& final(self).roster() == old(self).roster().push(entry)
                    &&& final(self).params() == old(self).params().push(params)
                },
            },
    {
        let ghost r0 = self.roster();
        let n = self.bodies.len();
        assert(r0.len() == n);
        let idx = self.index_of(entry.id);
        proof {
            if let Some(j0) = first_index(r0, entry.id) {
                assert((j0 as usize) as int == j0);
            }
        }
        let ghost p0 = old(self).params();
        match idx {
            Some(j) => {
                self.bodies.set(j, (entry, params));
                assert(self.roster() =~= r0.update(j as int, entry));
                assert(self.params() =~= p0.update(j as int, params));
                self.put_state(entry.id, state);
                assert(first_index(r0, entry.id) == Some(j as int));
            },
            None => {
                self.bodies.push((entry, params));
                assert(self.roster() =~= r0.push(entry));
                assert(self.params() =~= p0.push(params));
                self.put_state(entry.id, state);
                assert(first_index(r0, entry.id) is None);
            },
        }
    }

    /// Physical parameters of every catalogued body, in roster order.
    pub fn bodies(&self) -> (r: Vec<P>)
        ensures
            r@ == self.params(),
    {
        let n = self.bodies.len();
        let mut out: Vec<P> = Vec::new();
        let mut i: usize = 0;
        while i < n
            invariant
                n == self.bodies@.len(),
                n == self.params().len(),
                i <= n,
                out@ == self.params().take(i as int),
            decreases n - i,
        {
            out.push(self.bodies[i].1);
            assert(self.params().take(i as int + 1) =~= self.params().take(i as int).push(self.params()[i as int]));
            i = i + 1;
        }
        assert(self.params().take(n as int) =~= self.params());
        out
    }

    /// Parameters and state of every catalogued body whose state is known,
    /// in roster order.
    pub fn all_states(&self) -> (r: Vec<(P, S)>)
        ensures
            r@ == known_list(*self, self.roster().len()),
    {
        let n = self.bodies.len();
        let mut out: Vec<(P, S)> = Vec::new();
        let mut i: usize = 0;
        while i < n
            invariant
                n == self.bodies@.len(),
                i <= n,
                n == self.roster().len(),
                out@ == known_list(*self, i as nat),
            decreases n - i,
        {
            let id = self.bodies[i].0.id;
            let found = self.get(id);
            assert(self.roster()[i as int].id == id);
            match found {
                Some(st) => {
                    assert(self.params()[i as int] == self.bodies@[i as int].1);
                    out.push((self.bodies[i].1, st));
                },
                None => {},
            }
            i = i + 1;
        }
        out
    }

    /// Recompute every catalogued body's state in one pass, in roster order.
    /// For each body, `propagate` receives its parameters, its refresh step
    /// (judged against the states known at that point of the pass) and the
    /// state the step builds on: the parent's current state for a relative
    /// step, the body's own last known state for a kept one, nothing for a
    /// heliocentric one. Its result becomes the body's state; when an id is
    /// listed more than once, the last listing decides.
    pub fn refresh<F: Fn(P, RefreshStep, Option<S>) -> S>(&mut self, propagate: F)
        requires
            forall|p: P, step: RefreshStep, prior: Option<S>| #[trigger] propagate.requires((p, step, prior)),
        ensures
            refreshed(*old(self), *final(self), propagate),
    {
        let n = self.bodies.len();
        let ghost roster = self.roster();
        let ghost mut rs: Seq<S> = Seq::empty();
        let mut i: usize = 0;
        while i < n
            invariant
                forall|p: P, step: RefreshStep, prior: Option<S>| #[trigger] propagate.requires((p, step, prior)),
                rs.len() == i,
                forall|k: int| 0 <= k < rs.len() ==>
                    call_ensures(
                        propagate,
                        (old(self).params()[k], refresh_step_spec(roster, old(self).known_ids(), k), pass_prior(*old(self), rs, k)),
                        #[trigger] rs[k],
                    ),
                forall|id: i32| #[trigger] self.state_of(id) == pass_state(*old(self), rs, i as int, id),
                n == roster.len(),
                roster == self.roster(),
                roster == old(self).roster(),
                self.params() == old(self).params(),
                i <= n,
                forall|k: int| 0 <= k < i ==> #[trigger] self.state_of(roster[k].id) is Some,
                forall|id: i32| (forall|k: int| 0 <= k < i ==> roster[k].id != id)
                    ==> #[trigger] self.state_of(id) == old(self).state_of(id),
                forall|id: i32| #[trigger] self.known_ids().contains(id)
                    <==> known_at(roster, old(self).known_ids(), i as int, id),
                ids_distinct(roster) ==> forall|k: int| 0 <= k < i ==>
                    call_ensures(
                        propagate,
                        (old(self).params()[k], refresh_step_spec(roster, old(self).known_ids(), k), refresh_prior(*old(self), *self, k)),
                        #[trigger] self.state_of(roster[k].id)->0,
                    ),
            decreases n - i,
        {
            assert(self.bodies@.len() == self.roster().len());
            let e = self.bodies[i].0;
            let params = self.bodies[i].1;
            assert(e == roster[i as int]);
            let step = if !e.has_orbit {
                RefreshStep::Keep
            } else {
                match e.parent {
                    None => RefreshStep::Heliocentric,
                    Some(p) => {
                        if self.has_state(p) {
                            RefreshStep::Relative { parent: p, parent_index: self.index_of(p) }
                        } else {
                            RefreshStep::Keep
                        }
                    },
                }
            };
            let prior = match step {
                RefreshStep::Heliocentric => None,
                RefreshStep::Relative { parent, .. } => self.get(parent),
                RefreshStep::Keep => self.get(e.id),
            };
            assert(step == refresh_step_spec(roster, old(self).known_ids(), i as int));
            let ghost before = *self;
            let st = propagate(params, step, prior);
            self.put_state(e.id, st);
            proof {
                assert(prior == pass_prior(*old(self), rs, i as int));
                let rs2 = rs.push(st);
                assert forall|id: i32| #[trigger] self.state_of(id) == pass_state(*old(self), rs2, i + 1, id) by {
                    lemma_pass_state_push(*old(self), rs, st, i as int, id);
                }
                assert forall|k: int| 0 <= k < rs2.len() implies
                    call_ensures(
                        propagate,
                        (old(self).params()[k], refresh_step_spec(roster, old(self).known_ids(), k), pass_prior(*old(self), rs2, k)),
                        #[trigger] rs2[k],
                    ) by {
                    let pid = match refresh_step_spec(roster, old(self).known_ids(), k) {
                        RefreshStep::Relative { parent, .. } => parent,
                        _ => roster[k].id,
                    };
                    lemma_pass_state_push(*old(self), rs, st, i as int, pid);
                    assert(pass_prior(*old(self), rs2, k) == pass_prior(*old(self), rs, k));
                }
                rs = rs2;
            }
            proof {
                assert forall|id: i32| #[trigger] self.known_ids().contains(id)
                    <==> known_at(roster, old(self).known_ids(), i + 1, id) by {
                    if id == e.id {
                        assert(self.state_of(id) is Some);
                        assert(roster[i as int].id == id);
                        assert(known_at(roster, old(self).known_ids(), i + 1, id));
                    } else {
                        assert(self.state_of(id) == before.state_of(id));
                        assert(self.known_ids().contains(id) == before.known_ids().contains(id));
                        assert(before.known_ids().contains(id) <==> known_at(roster, old(self).known_ids(), i as int, id));
                        if known_at(roster, old(self).known_ids(), i + 1, id) {
                            if !old(self).known_ids().contains(id) {
                                let j = choose|j: int| 0 <= j < i + 1 && roster[j].id == id;
                                assert(j != i);
                                assert(known_at(roster, old(self).known_ids(), i as int, id));
                            }
                        }
                        if known_at(roster, old(self).known_ids(), i as int, id) {
                            if !old(self).known_ids().contains(id) {
                                let j = choose|j: int| 0 <= j < i && roster[j].id == id;
                                assert(0 <= j < i + 1 && roster[j].id == id);
                            }
                        }
                    }
                }
                assert forall|id: i32| (forall|k: int| 0 <= k < i + 1 ==> roster[k].id != id) implies
                    #[trigger] self.state_of(id) == old(self).state_of(id) by {
                    assert(roster[i as int].id != id);
                    assert(self.state_of(id) == before.state_of(id));
                }
                if ids_distinct(roster) {
                    let after = *self;
                    assert(prior == refresh_prior(*old(self), after, i as int)) by {
                        if step is Keep {
                            assert(forall|k: int| 0 <= k < i ==> roster[k].id != e.id);
                        } else if let RefreshStep::Relative { parent, .. } = step {
                            if exists|j: int| 0 <= j < i && roster[j].id == parent {
                                let j = choose|j: int| 0 <= j < i && roster[j].id == parent;
                                assert(parent != e.id);
                                assert(after.state_of(parent) == before.state_of(parent));
                            } else {
                                assert(forall|k: int| 0 <= k < i ==> roster[k].id != parent);
                            }
                        }
                    }
                    assert forall|k: int| 0 <= k < i + 1 implies
                        call_ensures(
                            propagate,
                            (old(self).params()[k], refresh_step_spec(roster, old(self).known_ids(), k), refresh_prior(*old(self), *self, k)),
                            #[trigger] self.state_of(roster[k].id)->0,
                        ) by {
                        if k == i {
                            assert(self.state_of(roster[k].id) == Some(st));
                        } else {
                            assert(roster[k].id != roster[i as int].id);
                            assert(self.state_of(roster[k].id) == before.state_of(roster[k].id));
                            assert(refresh_prior(*old(self), after, k) == refresh_prior(*old(self), before, k)) by {
                                if let RefreshStep::Relative { parent, .. } = refresh_step_spec(roster, old(self).known_ids(), k) {
                                    if exists|j: int| 0 <= j < k && roster[j].id == parent {
                                        let j = choose|j: int| 0 <= j < k && roster[j].id == parent;
                                        assert(parent != roster[i as int].id);
                                    }
                                }
                            }
                        }
                    }
                }
            }
            i = i + 1;
        }
        assert(pass_results(*old(self), *self, propagate, rs));
    }
}

/// `after` is what one refresh pass with `propagate` makes of `before`: the
/// roster and parameters stay, every catalogued body gets a state, bodies
/// outside the roster keep theirs, the states are the results of the pass
/// step by step (the last position holding an id decides its state), and,
/// for a roster without repeated ids, each body's new state is a result of
/// `propagate` on its parameters, its refresh step and the state that step
/// builds on as read from `before` and `after`.
pub open spec fn refreshed<P, S, F: Fn(P, RefreshStep, Option<S>) -> S>(
    before: BodyTable<P, S>,
    after: BodyTable<P, S>,
    propagate: F,
) -> bool {
    &&& after.roster() == before.roster()
    &&& after.params() == before.params()
    &&& forall|i: int| 0 <= i < before.roster().len() ==>
        #[trigger] after.state_of(before.roster()[i].id) is Some
    &&& forall|id: i32| (forall|i: int| 0 <= i < before.roster().len() ==> before.roster()[i].id != id)
        ==> #[trigger] after.state_of(id) == before.state_of(id)
    &&& exists|rs: Seq<S>| pass_results(before, after, propagate, rs)
    &&& ids_distinct(before.roster()) ==> forall|i: int| 0 <= i < before.roster().len() ==>
        call_ensures(
            propagate,
            (
                before.params()[i],
                refresh_step_spec(before.roster(), before.known_ids(), i),
                refresh_prior(before, after, i),
            ),
            #[trigger] after.state_of(before.roster()[i].id)->0,
        )
}

/// `j` is the last roster position before `i` that holds `id`.
pub open spec fn is_last_before(roster: Seq<RosterEntry>, i: int, id: i32, j: int) -> bool {
    &&& 0 <= j < i
    &&& roster[j].id == id
    &&& forall|k: int| j < k < i ==> roster[k].id != id
}

/// State of body `id` when a pass that starts from `before` and computes
/// the results `rs` (one per roster position) reaches position `i`: the
/// result at the last earlier position holding `id`, or the state from
/// before the pass when no earlier position holds it.
pub open spec fn pass_state<P, S>(before: BodyTable<P, S>, rs: Seq<S>, i: int, id: i32) -> Option<S> {
    if exists|j: int| 0 <= j < i && before.roster()[j].id == id {
        Some(rs[choose|j: int| is_last_before(before.roster(), i, id, j)])
    } else {
        before.state_of(id)
    }
}

/// State the refresh step at position `i` builds on, in such a pass.
pub open spec fn pass_prior<P, S>(before: BodyTable<P, S>, rs: Seq<S>, i: int) -> Option<S> {
    let roster = before.roster();
    match refresh_step_spec(roster, before.known_ids(), i) {
        RefreshStep::Heliocentric => None,
        RefreshStep::Keep => pass_state(before, rs, i, roster[i].id),
        RefreshStep::Relative { parent, .. } => pass_state(before, rs, i, parent),
    }
}

/// `rs` are the results of a refresh pass from `before` to `after`: one per
/// roster position, each a result of `propagate` on that position's
/// parameters, refresh step and the state the step builds on as the pass
/// has left it; afterwards every id holds the result of the last position
/// with that id, and ids outside the roster keep their state.
pub open spec fn pass_results<P, S, F: Fn(P, RefreshStep, Option<S>) -> S>(
    before: BodyTable<P, S>,
    after: BodyTable<P, S>,
    propagate: F,
    rs: Seq<S>,
) -> bool {
    &&& rs.len() == before.roster().len()
    &&& forall|k: int| 0 <= k < rs.len() ==>
        call_ensures(
            propagate,
            (before.params()[k], refresh_step_spec(before.roster(), before.known_ids(), k), pass_prior(before, rs, k)),
            #[trigger] rs[k],
        )
    &&& forall|id: i32| #[trigger] after.state_of(id) == pass_state(before, rs, before.roster().len() as int, id)
}

/// Among positions before `i`, at most one is the last to hold `id`, and
/// one is whenever some position does.
proof fn lemma_last_before_unique(roster: Seq<RosterEntry>, i: int, id: i32)
    ensures
        forall|j1: int, j2: int| is_last_before(roster, i, id, j1) && is_last_before(roster, i, id, j2) ==> j1 == j2,
        (exists|j: int| 0 <= j < i && roster[j].id == id) ==> exists|j: int| is_last_before(roster, i, id, j),
    decreases i,
{
    assert forall|j1: int, j2: int| is_last_before(roster, i, id, j1) && is_last_before(roster, i, id, j2)
        implies j1 == j2 by {
        if j1 < j2 {
            assert(roster[j2].id != id);
        } else if j2 < j1 {
            assert(roster[j1].id != id);
        }
    }
    if i > 0 && exists|j: int| 0 <= j < i && roster[j].id == id {
        if roster[i - 1].id == id {
            assert(is_last_before(roster, i, id, i - 1));
        } else {
            let j = choose|j: int| 0 <= j < i && roster[j].id == id;
            assert(0 <= j < i - 1 && roster[j].id == id);
            let im = i - 1;
            lemma_last_before_unique(roster, im, id);
            let w = choose|w: int| is_last_before(roster, im, id, w);
            assert(is_last_before(roster, i, id, w));
        }
    }
}

/// One more pass step: position `i` takes result `st`; every earlier view of
/// the pass is unchanged.
proof fn lemma_pass_state_push<P, S>(before: BodyTable<P, S>, rs: Seq<S>, st: S, i: int, id: i32)
    requires
        rs.len() == i,
        0 <= i < before.roster().len(),
    ensures
        pass_state(before, rs.push(st), i + 1, id)
            == if id == before.roster()[i].id { Some(st) } else { pass_state(before, rs, i, id) },
        forall|k: int| 0 <= k <= i ==> #[trigger] pass_state(before, rs.push(st), k, id) == pass_state(before, rs, k, id),
{
    let roster = before.roster();
    let rs2 = rs.push(st);
    lemma_last_before_unique(roster, i + 1, id);
    lemma_last_before_unique(roster, i, id);
    if id == roster[i].id {
        assert(is_last_before(roster, i + 1, id, i));
    } else if exists|j: int| 0 <= j < i && roster[j].id == id {
        let w = choose|w: int| is_last_before(roster, i, id, w);
        assert(is_last_before(roster, i + 1, id, w));
        assert(exists|j: int| 0 <= j < i + 1 && roster[j].id == id);
    } else {
        assert(!exists|j: int| 0 <= j < i + 1 && roster[j].id == id) by {
            if exists|j: int| 0 <= j < i + 1 && roster[j].id == id {
                let j = choose|j: int| 0 <= j < i + 1 && roster[j].id == id;
                assert(j != i);
            }
        }
    }
    assert forall|k: int| 0 <= k <= i implies #[trigger] pass_state(before, rs2, k, id) == pass_state(before, rs, k, id) by {
        lemma_last_before_unique(roster, k, id);
        if exists|j: int| 0 <= j < k && roster[j].id == id {
            let w = choose|w: int| is_last_before(roster, k, id, w);
            assert(rs2[w] == rs[w]);
        }
    }
}

/// `propagate` is a function of its arguments: equal arguments, equal result.
pub open spec fn deterministic<P, S, F: Fn(P, RefreshStep, Option<S>) -> S>(propagate: F) -> bool {
    forall|p: P, step: RefreshStep, prior: Option<S>, r1: S, r2: S|
        #[trigger] call_ensures(propagate, (p, step, prior), r1)
            && #[trigger] call_ensures(propagate, (p, step, prior), r2) ==> r1 == r2
}

/// A kept body keeps the state it had.
pub open spec fn keeps_known_state<P, S, F: Fn(P, RefreshStep, Option<S>) -> S>(propagate: F) -> bool {
    forall|p: P, s: S, r: S| #[trigger] call_ensures(propagate, (p, RefreshStep::Keep, Some(s)), r) ==> r == s
}

/// Refreshing twice at the same instant gives the same states as refreshing
/// once: with parents listed before their satellites, a deterministic
/// propagation that keeps the state of bodies it does not move, and no
/// repeated ids, the second pass reproduces every state of the first.
pub proof fn lemma_refresh_idempotent<P, S, F: Fn(P, RefreshStep, Option<S>) -> S>(
    t0: BodyTable<P, S>,
    t1: BodyTable<P, S>,
    t2: BodyTable<P, S>,
    propagate: F,
)
    requires
        parents_first(t0.roster()),
        ids_distinct(t0.roster()),
        deterministic(propagate),
        keeps_known_state(propagate),
        refreshed(t0, t1, propagate),
        refreshed(t1, t2, propagate),
    ensures
        t2.roster() == t1.roster(),
        t2.params() == t1.params(),
        forall|id: i32| #[trigger] t2.state_of(id) == t1.state_of(id),
{
    let roster = t0.roster();
    lemma_refresh_prefix_agrees(t0, t1, t2, propagate, roster.len() as int);
    assert forall|id: i32| #[trigger] t2.state_of(id) == t1.state_of(id) by {
        if exists|k: int| 0 <= k < roster.len() && roster[k].id == id {
            let k = choose|k: int| 0 <= k < roster.len() && roster[k].id == id;
            assert(t2.state_of(roster[k].id) == t1.state_of(roster[k].id));
        } else {
            assert(forall|i: int| 0 <= i < t1.roster().len() ==> t1.roster()[i].id != id);
        }
    }
}

/// The second pass agrees with the first on the first `n` roster entries.
proof fn lemma_refresh_prefix_agrees<P, S, F: Fn(P, RefreshStep, Option<S>) -> S>(
    t0: BodyTable<P, S>,
    t1: BodyTable<P, S>,
    t2: BodyTable<P, S>,
    propagate: F,
    n: int,
)
    requires
        parents_first(t0.roster()),
        ids_distinct(t0.roster()),
        deterministic(propagate),
        keeps_known_state(propagate),
        refreshed(t0, t1, propagate),
        refreshed(t1, t2, propagate),
        0 <= n <= t0.roster().len(),
    ensures
        forall|k: int| 0 <= k < n ==> #[trigger] t2.state_of(t0.roster()[k].id) == t1.state_of(t0.roster()[k].id),
    decreases n,
{
    if n > 0 {
        lemma_refresh_prefix_agrees(t0, t1, t2, propagate, n - 1);
        let roster = t0.roster();
        let k = n - 1;
        let e = roster[k];
        let r1 = t1.state_of(e.id)->0;
        let r2 = t2.state_of(e.id)->0;
        assert(t1.state_of(e.id) is Some);
        assert(t2.state_of(t1.roster()[k].id) is Some);
        let s1 = refresh_step_spec(roster, t0.known_ids(), k);
        let s2 = refresh_step_spec(roster, t1.known_ids(), k);
        if e.has_orbit {
            lemma_parents_first_propagates_every_orbit(roster, t0.known_ids(), k);
            lemma_parents_first_propagates_every_orbit(roster, t1.known_ids(), k);
            assert(s1 == s2);
            if let RefreshStep::Relative { parent, .. } = s1 {
                let j = choose|j: int| 0 <= j < k && roster[j].id == roster[k].parent->0;
                assert(roster[j].id == parent);
                assert(t2.state_of(roster[j].id) == t1.state_of(roster[j].id));
                assert(refresh_prior(t0, t1, k) == refresh_prior(t1, t2, k));
            }
            assert(call_ensures(propagate, (t0.params()[k], s1, refresh_prior(t0, t1, k)), r1));
            assert(call_ensures(propagate, (t1.params()[k], s2, refresh_prior(t1, t2, k)), r2));
        } else {
            assert(s2 == RefreshStep::Keep);
            assert(refresh_prior(t1, t2, k) == t1.state_of(e.id));
            assert(call_ensures(propagate, (t1.params()[k], RefreshStep::Keep, Some(r1)), r2));
        }
    }
}

/// When every satellite is listed after its parent, a single refresh pass
/// propagates every orbiting body: none falls back to its stale state, and
/// each satellite is propagated around its own parent.
pub proof fn lemma_parents_first_propagates_every_orbit(roster: Seq<RosterEntry>, known: Set<i32>, i: int)
    requires
        parents_first(roster),
        0 <= i < roster.len(),
        roster[i].has_orbit,
    ensures
        refresh_step_spec(roster, known, i) != RefreshStep::Keep,
        roster[i].parent is None ==> refresh_step_spec(roster, known, i) == RefreshStep::Heliocentric,
        roster[i].parent matches Some(p) ==> refresh_step_spec(roster, known, i) is Relative
            && refresh_step_spec(roster, known, i)->parent == p,
{
    if let Some(p) = roster[i].parent {
        assert(roster[i].parent is Some);
        let j = choose|j: int| 0 <= j < i && roster[j].id == roster[i].parent->0;
        assert(known_at(roster, known, i, p));
    }
}

/// A body without Keplerian elements always keeps its last known state.
pub proof fn lemma_pinned_bodies_keep_state(roster: Seq<RosterEntry>, known: Set<i32>, i: int)
    requires
        0 <= i < roster.len(),
        !roster[i].has_orbit,
    ensures
        refresh_step_spec(roster, known, i) == RefreshStep::Keep,
{
}

/// What one refresh pass does to each catalogued body, with parents listed
/// before their satellites and no repeated ids: a body without orbital
/// elements is handed its own last state (and keeps it, for a propagation
/// that keeps what it is given); a body orbiting the Sun is propagated from
/// nothing; a satellite is propagated from the state its parent was given
/// earlier in the same pass, together with the parent's roster position.
pub proof fn lemma_refresh_each_body<P, S, F: Fn(P, RefreshStep, Option<S>) -> S>(
    before: BodyTable<P, S>,
    after: BodyTable<P, S>,
    propagate: F,
    i: int,
)
    requires
        refreshed(before, after, propagate),
        parents_first(before.roster()),
        ids_distinct(before.roster()),
        0 <= i < before.roster().len(),
    ensures
        ({
            let e = before.roster()[i];
            let p = before.params()[i];
            let st = after.state_of(e.id);
            &&& st is Some
            &&& !e.has_orbit ==> call_ensures(propagate, (p, RefreshStep::Keep, before.state_of(e.id)), st->0)
            &&& !e.has_orbit && keeps_known_state(propagate) && before.state_of(e.id) is Some
                ==> st == before.state_of(e.id)
            &&& e.has_orbit && e.parent is None
                ==> call_ensures(propagate, (p, RefreshStep::Heliocentric, None::<S>), st->0)
            &&& e.has_orbit && e.parent is Some ==> exists|j: int| {
                &&& 0 <= j < i
                &&& before.roster()[j].id == e.parent->0
                &&& call_ensures(
                    propagate,
                    (
                        p,
                        RefreshStep::Relative { parent: e.parent->0, parent_index: Some(j as usize) },
                        after.state_of(e.parent->0),
                    ),
                    st->0,
                )
            }
        }),
{
    let roster = before.roster();
    let e = roster[i];
    assert(after.state_of(roster[i].id) is Some);
    if e.has_orbit {
        lemma_parents_first_propagates_every_orbit(roster, before.known_ids(), i);
        if let Some(pid) = e.parent {
            let j = choose|j: int| 0 <= j < i && roster[j].id == roster[i].parent->0;
            assert(exists|k: int| 0 <= k < roster.len() && roster[k].id == pid) by {
                assert(0 <= j < roster.len() && roster[j].id == pid);
            }
            let w = choose|w: int| 0 <= w < roster.len() && roster[w].id == pid
                && forall|k: int| 0 <= k < w ==> roster[k].id != pid;
            assert(0 <= j < roster.len() && roster[j].id == pid && forall|k: int| 0 <= k < j ==> roster[k].id != pid) by {
                assert forall|k: int| 0 <= k < j implies roster[k].id != pid by {
                    assert(roster[k].id != roster[j].id);
                }
            }
            assert(w == j) by {
                if w != j {
                    if w < j { assert(roster[w].id != roster[j].id); } else { assert(roster[j].id != roster[w].id); }
                }
            }
            assert(first_index(roster, pid) == Some(j));
            assert(refresh_prior(before, after, i) == after.state_of(pid));
        }
    }
}

} // verus!
