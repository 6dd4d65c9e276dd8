//! Element-id sets, the named full-screen steps made of them, and the
//! step registry with its current / pending step ids.

use vstd::prelude::*;
use vstd::hash_map::StringHashMap;
use crate::reconcile::{despawn_set, reconcile, spawn_ids, spawn_set};
use crate::state::{ShellModel, ShellState};

verus! {

/// The set of ids named by a sequence of id strings.
pub open spec fn ids_set(s: Seq<String>) -> Set<Seq<char>> {
    Set::new(|k: Seq<char>| exists|i: int| 0 <= i < s.len() && s[i]@ == k)
}

/// The set of ids named by the first `n` entries of `s`.
pub open spec fn ids_prefix_set(s: Seq<String>, n: int) -> Set<Seq<char>> {
    Set::new(|k: Seq<char>| exists|i: int| 0 <= i < n && i < s.len() && s[i]@ == k)
}

/// Extending the prefix by one entry inserts that entry's id.
pub proof fn lemma_ids_prefix_grow(s: Seq<String>, n: int)
    requires
        0 <= n < s.len(),
    ensures
        ids_prefix_set(s, n + 1) =~= ids_prefix_set(s, n).insert(s[n]@),
{
    assert forall|k: Seq<char>| ids_prefix_set(s, n + 1).contains(k) implies ids_prefix_set(
        s,
        n,
    ).insert(s[n]@).contains(k) by {
        let i = choose|i: int| 0 <= i < n + 1 && i < s.len() && s[i]@ == k;
        if i < n {
            assert(ids_prefix_set(s, n).contains(k));
        } else {
            assert(k == s[n]@);
        }
    }
    assert forall|k: Seq<char>| ids_prefix_set(s, n).insert(s[n]@).contains(k)
        implies ids_prefix_set(s, n + 1).contains(k) by {
        if k == s[n]@ {
            assert(0 <= n < n + 1 && n < s.len() && s[n]@ == k);
        } else {
            let i = choose|i: int| 0 <= i < n && i < s.len() && s[i]@ == k;
            assert(0 <= i < n + 1 && i < s.len() && s[i]@ == k);
        }
    }
}

/// The full prefix names the whole set.
pub proof fn lemma_ids_prefix_full(s: Seq<String>)
    ensures
        ids_prefix_set(s, s.len() as int) =~= ids_set(s),
{
}

/// A finite set of element ids, kept as a duplicate-free vector so that it
/// can be iterated; the ghost view is a `Set<Seq<char>>`.
pub struct ElementSet {
    ids: Vec<String>,
}

impl View for ElementSet {
    type V = Set<Seq<char>>;

    closed spec fn view(&self) -> Set<Seq<char>> {
        ids_set(self.ids@)
    }
}

impl ElementSet {
    /// No entry names the same id twice.
    pub closed spec fn wf(&self) -> bool {
        forall|i: int, j: int|
            0 <= i < j < self.ids@.len() ==> self.ids@[i]@ != self.ids@[j]@
    }

    /// The ids in iteration order.
    pub closed spec fn seq(&self) -> Seq<String> {
        self.ids@
    }

    /// The view is exactly the ids the iteration order runs through.
    pub proof fn lemma_view_is_seq(&self)
        ensures
            self@ =~= ids_set(self.seq()),
    {
    }

    /// An empty set.
    pub fn new() -> (s: ElementSet)
        ensures
            s@ =~= Set::<Seq<char>>::empty(),
            s.wf(),
            s.seq().len() == 0,
    {
        ElementSet { ids: Vec::new() }
    }

    /// How many ids the set holds.
    pub fn len(&self) -> (n: usize)
        ensures
            n == self.seq().len(),
    {
        self.ids.len()
    }

    /// The id at one iteration position.
    pub fn index(&self, i: usize) -> (id: &String)
        requires
            i < self.seq().len(),
        ensures
            *id == self.seq()[i as int],
            self@.contains(id@),
    {
        let r = &self.ids[i];
        proof {
            assert(self.ids@[i as int]@ == r@);
        }
        r
    }

    /// Membership test.
    pub fn contains(&self, id: &String) -> (r: bool)
        ensures
            r == self@.contains(id@),
    {
        let mut i: usize = 0;
        while i < self.ids.len()
            invariant
                i <= self.ids@.len(),
                forall|j: int| 0 <= j < i ==> self.ids@[j]@ != id@,
            decreases self.ids@.len() - i,
        {
            if self.ids[i] == *id {
                proof {
                    assert(self.ids@[i as int]@ == id@);
                }
                return true;
            }
            i += 1;
        }
        proof {
            if self@.contains(id@) {
                let j = choose|j: int| 0 <= j < self.ids@.len() && self.ids@[j]@ == id@;
                assert(self.ids@[j]@ != id@);
            }
        }
        false
    }

    /// Copies the set.
    pub fn duplicate(&self) -> (r: ElementSet)
        requires
            self.wf(),
        ensures
            r@ =~= self@,
            r.wf(),
    {
        let mut out: Vec<String> = Vec::new();
        let n = self.ids.len();
        let mut i: usize = 0;
        while i < n
            invariant
                n == self.ids@.len(),
                i <= n,
                out@.len() == i,
                forall|j: int| 0 <= j < i ==> out@[j]@ == self.ids@[j]@,
            decreases n - i,
        {
            out.push(self.ids[i].clone());
            i += 1;
        }
        let r = ElementSet { ids: out };
        proof {
            assert forall|k: Seq<char>| r@.contains(k) implies self@.contains(k) by {
                let j = choose|j: int| 0 <= j < r.ids@.len() && r.ids@[j]@ == k;
                assert(self.ids@[j]@ == k);
            }
            assert forall|k: Seq<char>| self@.contains(k) implies r@.contains(k) by {
                let j = choose|j: int| 0 <= j < self.ids@.len() && self.ids@[j]@ == k;
                assert(r.ids@[j]@ == k);
            }
        }
        r
    }

    /// Inserts an id; inserting a member again changes nothing.
    pub fn insert(&mut self, id: String)
        requires
            old(self).wf(),
        ensures
            final(self)@ =~= old(self)@.insert(id@),
            final(self).wf(),
    {
        let ghost gid = id@;
        if !self.contains(&id) {
            let ghost s0 = self.ids@;
            self.ids.push(id);
            proof {
                assert forall|k: Seq<char>| self@.contains(k) implies old(self)@.insert(
                    gid,
                ).contains(k) by {
                    let i = choose|i: int| 0 <= i < self.ids@.len() && self.ids@[i]@ == k;
                    if i < s0.len() {
                        assert(s0[i]@ == k);
                    } else {
                        assert(k == gid);
                    }
                }
                assert forall|k: Seq<char>| old(self)@.insert(gid).contains(k)
                    implies self@.contains(k) by {
                    if k == gid {
                        assert(self.ids@[s0.len() as int]@ == k);
                    } else {
                        let i = choose|i: int| 0 <= i < s0.len() && s0[i]@ == k;
                        assert(self.ids@[i]@ == k);
                    }
                }
                assert forall|i: int, j: int|
                    0 <= i < j < self.ids@.len() implies self.ids@[i]@ != self.ids@[j]@ by {
                    if j == s0.len() {
                        assert(!ids_set(s0).contains(gid));
                        assert(s0[i]@ != gid);
                    }
                }
            }
        } else {
            proof {
                assert(self@ =~= old(self)@.insert(gid));
            }
        }
    }
}

/// A named full-screen scene: the set of element ids it owns.
pub struct Step(pub ElementSet);

/// The registry of steps by name.
pub struct StepMap(pub StringHashMap<Step>);

impl View for StepMap {
    type V = Map<Seq<char>, Set<Seq<char>>>;

    open spec fn view(&self) -> Map<Seq<char>, Set<Seq<char>>> {
        self.0@.map_values(|s: Step| s.0@)
    }
}

impl StepMap {
    /// Every registered step's id set is well formed.
    pub open spec fn wf(&self) -> bool {
        forall|k: Seq<char>| #[trigger]
            self.0@.dom().contains(k) ==> self.0@[k].0.wf()
    }

    /// An empty registry.
    pub fn new() -> (m: StepMap)
        ensures
            m@ =~= Map::<Seq<char>, Set<Seq<char>>>::empty(),
            m.wf(),
    {
        let m = StepMap(StringHashMap::new());
        proof {
            assert(m@ =~= Map::<Seq<char>, Set<Seq<char>>>::empty());
        }
        m
    }

    /// Content registration: binds a step name to its element-id set.
    pub fn register(&mut self, name: String, step: Step)
        requires
            old(self).wf(),
            step.0.wf(),
        ensures
            final(self)@ =~= old(self)@.insert(name@, step.0@),
            final(self).wf(),
    {
        let ghost gname = name@;
        let ghost gset = step.0@;
        self.0.insert(name, step);
        proof {
            assert(self@ =~= old(self)@.insert(gname, gset));
        }
    }

    /// Looks a step up by name.
    pub fn get(&self, name: &str) -> (r: Option<&Step>)
        ensures
            match r {
                Some(s) => self@.contains_key(name@) && s.0@ == self@[name@] && (self.wf()
                    ==> s.0.wf()),
                None => !self@.contains_key(name@),
            },
    {
        self.0.get(name)
    }
}

/// The name of the step currently on screen.
pub struct CurrentStepID(pub String);

/// The step that the next reconciliation pass must realize.
pub struct NextStepID(pub String);

/// What the once-per-tick step pass does: when a step change is pending and
/// both steps are registered, despawn exactly the ids the old step no longer
/// shares with the new one, spawn exactly the new ones, and commit the
/// pending id; when no change is pending, nothing at all.
pub open spec fn step_commit_model(m: ShellModel) -> ShellModel {
    if m.current_step == m.next_step {
        m
    } else {
        let live1 = if m.steps.contains_key(m.current_step) && m.steps.contains_key(
            m.next_step,
        ) {
            spawn_ids(
                m.live.remove_keys(
                    m.steps[m.current_step].difference(m.steps[m.next_step]),
                ),
                m.steps[m.next_step].difference(m.steps[m.current_step]),
                m.catalog,
            )
        } else {
            m.live
        };
        ShellModel { current_step: m.next_step, live: live1, ..m }
    }
}

/// The once-per-tick step pass: commits a pending step change by diffing the
/// outgoing step's element set against the incoming one.
pub fn on_step_change(state: &mut ShellState)
    requires
        old(state).wf(),
    ensures
        final(state)@ =~~= step_commit_model(old(state)@),
        final(state).wf(),
{
    if state.current_step.0 == state.next_step.0 {
        return ;
    }
    match state.step_map.get(state.current_step.0.as_str()) {
        Some(cur) => {
            match state.step_map.get(state.next_step.0.as_str()) {
                Some(nxt) => {
                    let (to_spawn, to_despawn) = reconcile(&cur.0, &nxt.0);
                    despawn_set(&mut state.live, &to_despawn);
                    spawn_set(&mut state.live, &to_spawn, &state.catalog);
                },
                None => {},
            }
        },
        None => {},
    }
    state.current_step = CurrentStepID(state.next_step.0.clone());
}

} // verus!
