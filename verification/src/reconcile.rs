//! Live instances, the ownership table that binds each spawned element to its
//! id, and the reconciliation that diffs a target element set against the
//! live one and spawns or despawns exactly the difference.

use vstd::prelude::*;
use vstd::hash_map::StringHashMap;
use crate::elements::{Element, ElementId, ElementMap, ElementModel};
use crate::steps::{ids_prefix_set, lemma_ids_prefix_full, lemma_ids_prefix_grow, ElementSet};

verus! {

/// The runtime realization of one element while it is on screen.
pub struct LiveInstance {
    pub id: ElementId,
    pub element: Element,
    pub hovered: bool,
}

/// Mathematical model of a live instance.
#[verifier::ext_equal]
pub ghost struct LiveModel {
    pub element: ElementModel,
    pub hovered: bool,
}

impl View for LiveInstance {
    type V = LiveModel;

    open spec fn view(&self) -> LiveModel {
        LiveModel { element: self.element@, hovered: self.hovered }
    }
}

/// The instance a spawn creates: the element's current descriptor, unhovered.
pub open spec fn fresh_live(e: ElementModel) -> LiveModel {
    LiveModel { element: e, hovered: false }
}

/// Realizes one element as a live instance bound to its id.
pub fn spawn_element(element_id: String, element: &Element) -> (li: LiveInstance)
    ensures
        li.id@ == element_id@,
        li@ == fresh_live(element@),
{
    LiveInstance { id: ElementId(element_id), element: crate::elements::clone_element(element), hovered: false }
}

/// The live map after spawning every id of `ids` that the catalog knows;
/// ids absent from the catalog are skipped, ids already live are respawned.
pub open spec fn spawn_ids(
    live: Map<Seq<char>, LiveModel>,
    ids: Set<Seq<char>>,
    catalog: Map<Seq<char>, ElementModel>,
) -> Map<Seq<char>, LiveModel> {
    Map::new(
        |k: Seq<char>| live.contains_key(k) || (ids.contains(k) && catalog.contains_key(k)),
        |k: Seq<char>|
            if ids.contains(k) && catalog.contains_key(k) {
                fresh_live(catalog[k])
            } else {
                live[k]
            },
    )
}

/// One spawn step: enlarging the id set by a cataloged id inserts its fresh
/// instance; by an uncataloged id, nothing.
pub proof fn lemma_spawn_ids_step(
    live: Map<Seq<char>, LiveModel>,
    ids: Set<Seq<char>>,
    catalog: Map<Seq<char>, ElementModel>,
    k: Seq<char>,
)
    ensures
        catalog.contains_key(k) ==> spawn_ids(live, ids.insert(k), catalog) =~= spawn_ids(
            live,
            ids,
            catalog,
        ).insert(k, fresh_live(catalog[k])),
        !catalog.contains_key(k) ==> spawn_ids(live, ids.insert(k), catalog) =~= spawn_ids(
            live,
            ids,
            catalog,
        ),
{
}

/// The explicit ownership table: the mapping from element id to its live
/// instance, updated exclusively by reconciliation.
pub struct LiveTable {
    ids: Vec<String>,
    table: StringHashMap<LiveInstance>,
}

impl View for LiveTable {
    type V = Map<Seq<char>, LiveModel>;

    closed spec fn view(&self) -> Map<Seq<char>, LiveModel> {
        self.table@.map_values(|li: LiveInstance| li@)
    }
}

impl LiveTable {
    /// The id list runs through exactly the table's keys, each once.
    pub closed spec fn wf(&self) -> bool {
        &&& forall|i: int, j: int|
            0 <= i < j < self.ids@.len() ==> self.ids@[i]@ != self.ids@[j]@
        &&& forall|i: int|
            0 <= i < self.ids@.len() ==> #[trigger] self.table@.contains_key(self.ids@[i]@)
        &&& forall|k: Seq<char>| #[trigger]
            self.table@.contains_key(k) ==> exists|i: int|
                0 <= i < self.ids@.len() && self.ids@[i]@ == k
    }

    /// The live ids in iteration order.
    pub closed spec fn ids_seq(&self) -> Seq<String> {
        self.ids@
    }

    /// Every id in iteration order is live, and every live id appears there.
    pub proof fn lemma_ids_cover(&self)
        requires
            self.wf(),
        ensures
            forall|i: int|
                0 <= i < self.ids_seq().len() ==> #[trigger] self@.contains_key(
                    self.ids_seq()[i]@,
                ),
            crate::steps::ids_set(self.ids_seq()) =~= self@.dom(),
    {
    }

    /// An empty table: nothing is on screen.
    pub fn new() -> (t: LiveTable)
        ensures
            t@ =~= Map::<Seq<char>, LiveModel>::empty(),
            t.wf(),
            t.ids_seq().len() == 0,
    {
        let t = LiveTable { ids: Vec::new(), table: StringHashMap::new() };
        proof {
            assert(t@ =~= Map::<Seq<char>, LiveModel>::empty());
        }
        t
    }

    /// How many instances are live.
    pub fn len(&self) -> (n: usize)
        ensures
            n == self.ids_seq().len(),
    {
        self.ids.len()
    }

    /// The live id at one iteration position.
    pub fn id_at(&self, i: usize) -> (id: &String)
        requires
            i < self.ids_seq().len(),
        ensures
            *id == self.ids_seq()[i as int],
    {
        &self.ids[i]
    }

    /// Whether an id is live.
    pub fn contains(&self, id: &str) -> (r: bool)
        ensures
            r == self@.contains_key(id@),
    {
        self.table.contains_key(id)
    }

    /// The live instance of an id.
    pub fn get(&self, id: &str) -> (r: Option<&LiveInstance>)
        ensures
            match r {
                Some(li) => self@.contains_key(id@) && li@ == self@[id@],
                None => !self@.contains_key(id@),
            },
    {
        self.table.get(id)
    }

    /// Installs a live instance under its id, replacing any previous one.
    pub fn spawn(&mut self, li: LiveInstance)
        requires
            old(self).wf(),
        ensures
            final(self)@ =~= old(self)@.insert(li.id@, li@),
            final(self).wf(),
    {
        let ghost gid = li.id@;
        let ghost gmodel = li@;
        let ghost ids0 = self.ids@;
        let already = self.table.contains_key(li.id.0.as_str());
        if !already {
            self.ids.push(li.id.0.clone());
        }
        self.table.insert(li.id.0.clone(), li);
        proof {
            assert(self@ =~= old(self)@.insert(gid, gmodel));
            if !already {
                assert forall|i: int, j: int|
                    0 <= i < j < self.ids@.len() implies self.ids@[i]@ != self.ids@[j]@ by {
                    if j == ids0.len() {
                        if self.ids@[i]@ == gid {
                            assert(old(self).table@.contains_key(ids0[i]@));
                        }
                    }
                }
                assert forall|k: Seq<char>| #[trigger]
                    self.table@.contains_key(k) implies exists|i: int|
                    0 <= i < self.ids@.len() && self.ids@[i]@ == k by {
                    if k == gid {
                        assert(self.ids@[ids0.len() as int]@ == k);
                    } else {
                        let i = choose|i: int| 0 <= i < ids0.len() && ids0[i]@ == k;
                        assert(self.ids@[i]@ == k);
                    }
                }
            } else {
                assert forall|k: Seq<char>| #[trigger]
                    self.table@.contains_key(k) implies exists|i: int|
                    0 <= i < self.ids@.len() && self.ids@[i]@ == k by {
                    if k == gid {
                        let i = choose|i: int| 0 <= i < ids0.len() && ids0[i]@ == k;
                        assert(self.ids@[i]@ == k);
                    } else {
                        let i = choose|i: int| 0 <= i < ids0.len() && ids0[i]@ == k;
                        assert(self.ids@[i]@ == k);
                    }
                }
            }
        }
    }

    /// Sets the hover flag of a live instance; a non-live id changes nothing.
    pub fn set_hover(&mut self, id: &String, hovered: bool)
        requires
            old(self).wf(),
        ensures
            final(self)@ =~= rehover(old(self)@, id@, hovered),
            final(self).wf(),
            final(self).ids_seq() == old(self).ids_seq(),
    {
        let li = match self.table.get(id.as_str()) {
            Some(li) => LiveInstance {
                id: ElementId(li.id.0.clone()),
                element: crate::elements::clone_element(&li.element),
                hovered,
            },
            None => {
                proof {
                    assert(self@ =~= rehover(old(self)@, id@, hovered));
                }
                return ;
            },
        };
        let ghost gmodel = li@;
        self.table.insert(id.clone(), li);
        proof {
            assert(self.ids@ == old(self).ids@);
            assert(self@ =~= old(self)@.insert(id@, gmodel));
            assert(self@ =~= rehover(old(self)@, id@, hovered));
            assert forall|k: Seq<char>| #[trigger]
                self.table@.contains_key(k) implies exists|i: int|
                0 <= i < self.ids@.len() && self.ids@[i]@ == k by {
                assert(old(self).table@.contains_key(k));
            }
        }
    }

    /// Rewrites the label of a live composite button; a non-live id, or a
    /// live instance of another kind, changes nothing.
    pub fn set_button_label(&mut self, id: &String, text: String)
        requires
            old(self).wf(),
        ensures
            final(self)@ =~= relabel_live(old(self)@, id@, text@),
            final(self).wf(),
    {
        let ghost gtext = text@;
        let li = match self.table.get(id.as_str()) {
            Some(li) => match &li.element {
                Element::TextImage(t) => LiveInstance {
                    id: ElementId(li.id.0.clone()),
                    element: Element::TextImage(crate::elements::TextImageElement {
                        content: text,
                        path: t.path.clone(),
                        position: t.position,
                        font_size: t.font_size,
                        image_color: t.image_color,
                        text_color: t.text_color,
                        actions: crate::elements::clone_actions(&t.actions),
                    }),
                    hovered: li.hovered,
                },
                _ => {
                    proof {
                        assert(self@ =~= relabel_live(old(self)@, id@, gtext));
                    }
                    return ;
                },
            },
            None => {
                proof {
                    assert(self@ =~= relabel_live(old(self)@, id@, gtext));
                }
                return ;
            },
        };
        let ghost gmodel = li@;
        self.table.insert(id.clone(), li);
        proof {
            assert(self.ids@ == old(self).ids@);
            assert(self@ =~= old(self)@.insert(id@, gmodel));
            assert(self@ =~= relabel_live(old(self)@, id@, gtext));
            assert forall|k: Seq<char>| #[trigger]
                self.table@.contains_key(k) implies exists|i: int|
                0 <= i < self.ids@.len() && self.ids@[i]@ == k by {
                assert(old(self).table@.contains_key(k));
            }
        }
    }

    /// Rewrites the content of a live plain text element; a non-live id, or
    /// a live instance of another kind, changes nothing.
    pub fn set_text_content(&mut self, id: &String, text: String)
        requires
            old(self).wf(),
        ensures
            final(self)@ =~= relabel_live_text(old(self)@, id@, text@),
            final(self).wf(),
    {
        let ghost gtext = text@;
        let li = match self.table.get(id.as_str()) {
            Some(li) => match &li.element {
                Element::Text(t) => LiveInstance {
                    id: ElementId(li.id.0.clone()),
                    element: Element::Text(crate::elements::TextElement {
                        content: text,
                        position: t.position,
                        color: t.color,
                        font_size: t.font_size,
                        anchor: t.anchor,
                    }),
                    hovered: li.hovered,
                },
                _ => {
                    proof {
                        assert(self@ =~= relabel_live_text(old(self)@, id@, gtext));
                    }
                    return ;
                },
            },
            None => {
                proof {
                    assert(self@ =~= relabel_live_text(old(self)@, id@, gtext));
                }
                return ;
            },
        };
        let ghost gmodel = li@;
        self.table.insert(id.clone(), li);
        proof {
            assert(self.ids@ == old(self).ids@);
            assert(self@ =~= old(self)@.insert(id@, gmodel));
            assert(self@ =~= relabel_live_text(old(self)@, id@, gtext));
            assert forall|k: Seq<char>| #[trigger]
                self.table@.contains_key(k) implies exists|i: int|
                0 <= i < self.ids@.len() && self.ids@[i]@ == k by {
                assert(old(self).table@.contains_key(k));
            }
        }
    }

    /// Despawns everything at once.
    pub fn clear(&mut self)
        ensures
            final(self)@ =~= Map::<Seq<char>, LiveModel>::empty(),
            final(self).wf(),
    {
        self.ids.clear();
        self.table.clear();
        proof {
            assert(self@ =~= Map::<Seq<char>, LiveModel>::empty());
        }
    }

    /// Removes an id's instance; removing a non-live id changes nothing.
    pub fn despawn(&mut self, id: &String)
        requires
            old(self).wf(),
        ensures
            final(self)@ =~= old(self)@.remove(id@),
            final(self).wf(),
    {
        let ghost ids0 = self.ids@;
        match find_id(&self.ids, id) {
            Some(i) => {
                proof {
                    assert(ids0[i as int]@ == id@);
                }
                self.ids.remove(i);
                self.table.remove(id.as_str());
                proof {
                    assert(self@ =~= old(self)@.remove(id@));
                    let ii = i as int;
                    assert forall|a: int, b: int|
                        0 <= a < b < self.ids@.len() implies self.ids@[a]@ != self.ids@[b]@ by {
                        let a0: int = if a < ii { a } else { a + 1 };
                        let b0: int = if b < ii { b } else { b + 1 };
                        assert(self.ids@[a] == ids0[a0]);
                        assert(self.ids@[b] == ids0[b0]);
                    }
                    assert forall|j: int|
                        0 <= j < self.ids@.len() implies #[trigger] self.table@.contains_key(
                        self.ids@[j]@,
                    ) by {
                        let j0: int = if j < ii { j } else { j + 1 };
                        assert(self.ids@[j] == ids0[j0]);
                        assert(ids0[j0]@ != id@);
                        assert(old(self).table@.contains_key(ids0[j0]@));
                    }
                    assert forall|k: Seq<char>| #[trigger]
                        self.table@.contains_key(k) implies exists|j: int|
                        0 <= j < self.ids@.len() && self.ids@[j]@ == k by {
                        assert(k != id@);
                        assert(old(self).table@.contains_key(k));
                        let j0 = choose|j0: int| 0 <= j0 < ids0.len() && ids0[j0]@ == k;
                        let j: int = if j0 < ii { j0 } else { j0 - 1 };
                        assert(j0 != ii);
                        assert(self.ids@[j] == ids0[j0]);
                    }
                }
            },
            None => {
                proof {
                    if old(self).table@.contains_key(id@) {
                        let j = choose|j: int|
                            0 <= j < ids0.len() && ids0[j]@ == id@;
                        assert(ids0[j]@ != id@);
                    }
                    assert(self@ =~= old(self)@.remove(id@));
                }
            },
        }
    }
}

/// The live map after setting one instance's hover flag.
pub open spec fn rehover(
    live: Map<Seq<char>, LiveModel>,
    id: Seq<char>,
    hovered: bool,
) -> Map<Seq<char>, LiveModel> {
    if live.contains_key(id) {
        live.insert(id, LiveModel { element: live[id].element, hovered })
    } else {
        live
    }
}

/// The live map after rewriting one live button's label in place.
pub open spec fn relabel_live(
    live: Map<Seq<char>, LiveModel>,
    id: Seq<char>,
    text: Seq<char>,
) -> Map<Seq<char>, LiveModel> {
    if live.contains_key(id) {
        live.insert(
            id,
            LiveModel {
                element: crate::elements::retext_button(live[id].element, text),
                hovered: live[id].hovered,
            },
        )
    } else {
        live
    }
}

/// The live map after rewriting one live text element's content in place.
pub open spec fn relabel_live_text(
    live: Map<Seq<char>, LiveModel>,
    id: Seq<char>,
    text: Seq<char>,
) -> Map<Seq<char>, LiveModel> {
    if live.contains_key(id) {
        live.insert(
            id,
            LiveModel {
                element: crate::elements::retext_text(live[id].element, text),
                hovered: live[id].hovered,
            },
        )
    } else {
        live
    }
}

/// The position of `id` in the id list, if it appears there.
fn find_id(ids: &Vec<String>, id: &String) -> (r: Option<usize>)
    ensures
        match r {
            Some(i) => i < ids@.len() && ids@[i as int]@ == id@,
            None => forall|j: int| 0 <= j < ids@.len() ==> ids@[j]@ != id@,
        },
{
    let mut i: usize = 0;
    let n = ids.len();
    while i < n
        invariant
            n == ids@.len(),
            i <= n,
            forall|j: int| 0 <= j < i ==> ids@[j]@ != id@,
        decreases n - i,
    {
        if ids[i] == *id {
            return Some(i);
        }
        i += 1;
    }
    None
}

/// Set-difference reconciliation: what must newly appear and what must go.
///
/// `to_spawn` is exactly `target \ live` and `to_despawn` exactly
/// `live \ target`; ids present in both sets are left untouched.
pub fn reconcile(live: &ElementSet, target: &ElementSet) -> (r: (ElementSet, ElementSet))
    requires
        live.wf(),
        target.wf(),
    ensures
        r.0@ =~= target@.difference(live@),
        r.1@ =~= live@.difference(target@),
        r.0.wf(),
        r.1.wf(),
{
    let to_spawn = set_difference(target, live);
    let to_despawn = set_difference(live, target);
    (to_spawn, to_despawn)
}

/// The ids of `a` that are not in `b`, as a well-formed set.
fn set_difference(a: &ElementSet, b: &ElementSet) -> (r: ElementSet)
    requires
        a.wf(),
        b.wf(),
    ensures
        r@ =~= a@.difference(b@),
        r.wf(),
{
    let mut r = ElementSet::new();
    let n = a.len();
    let mut i: usize = 0;
    while i < n
        invariant
            n == a.seq().len(),
            i <= n,
            a.wf(),
            b.wf(),
            r.wf(),
            r@ =~= ids_prefix_set(a.seq(), i as int).difference(b@),
        decreases n - i,
    {
        let id = a.index(i);
        proof {
            lemma_ids_prefix_grow(a.seq(), i as int);
        }
        if !b.contains(id) {
            r.insert(id.clone());
        }
        i += 1;
    }
    proof {
        lemma_ids_prefix_full(a.seq());
        a.lemma_view_is_seq();
    }
    r
}

/// Reconciling a live set against itself spawns nothing and despawns
/// nothing: reconciliation is idempotent.
pub proof fn lemma_reconcile_idempotent(t: Set<Seq<char>>)
    ensures
        t.difference(t) =~= Set::<Seq<char>>::empty(),
{
}

/// Spawns every cataloged element of `ids` into the live table.
pub fn spawn_set(live: &mut LiveTable, ids: &ElementSet, catalog: &ElementMap)
    requires
        old(live).wf(),
        ids.wf(),
    ensures
        final(live)@ =~= spawn_ids(old(live)@, ids@, catalog@),
        final(live).wf(),
{
    let n = ids.len();
    let mut i: usize = 0;
    while i < n
        invariant
            n == ids.seq().len(),
            i <= n,
            ids.wf(),
            live.wf(),
            live@ =~= spawn_ids(old(live)@, ids_prefix_set(ids.seq(), i as int), catalog@),
        decreases n - i,
    {
        let id = ids.index(i);
        proof {
            lemma_ids_prefix_grow(ids.seq(), i as int);
            lemma_spawn_ids_step(
                old(live)@,
                ids_prefix_set(ids.seq(), i as int),
                catalog@,
                id@,
            );
        }
        match catalog.get(id.as_str()) {
            Some(element) => {
                let li = spawn_element(id.clone(), element);
                live.spawn(li);
            },
            None => {},
        }
        i += 1;
    }
    proof {
        lemma_ids_prefix_full(ids.seq());
        ids.lemma_view_is_seq();
    }
}

/// Despawns every element of `ids` from the live table.
pub fn despawn_set(live: &mut LiveTable, ids: &ElementSet)
    requires
        old(live).wf(),
        ids.wf(),
    ensures
        final(live)@ =~= old(live)@.remove_keys(ids@),
        final(live).wf(),
{
    let n = ids.len();
    let mut i: usize = 0;
    while i < n
        invariant
            n == ids.seq().len(),
            i <= n,
            ids.wf(),
            live.wf(),
            live@ =~= old(live)@.remove_keys(ids_prefix_set(ids.seq(), i as int)),
        decreases n - i,
    {
        let id = ids.index(i);
        proof {
            lemma_ids_prefix_grow(ids.seq(), i as int);
        }
        live.despawn(id);
        proof {
            assert(live@ =~= old(live)@.remove_keys(
                ids_prefix_set(ids.seq(), i as int + 1),
            ));
        }
        i += 1;
    }
    proof {
        lemma_ids_prefix_full(ids.seq());
        ids.lemma_view_is_seq();
    }
}

} // verus!
