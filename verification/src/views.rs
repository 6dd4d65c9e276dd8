//! Overlay views: named element sets layered above the current step, and the
//! ordered stack of the views now shown.

use vstd::prelude::*;
use vstd::hash_map::StringHashMap;
use crate::steps::ElementSet;

verus! {

/// A named overlay scene: the set of element ids it owns.
pub struct ViewDef(pub ElementSet);

/// The registry of overlay views by name.
pub struct ViewMap(pub StringHashMap<ViewDef>);

impl View for ViewMap {
    type V = Map<Seq<char>, Set<Seq<char>>>;

    open spec fn view(&self) -> Map<Seq<char>, Set<Seq<char>>> {
        self.0@.map_values(|v: ViewDef| v.0@)
    }
}

impl ViewMap {
    /// Every registered view's id set is well formed.
    pub open spec fn wf(&self) -> bool {
        forall|k: Seq<char>| #[trigger]
            self.0@.dom().contains(k) ==> self.0@[k].0.wf()
    }

    /// An empty registry.
    pub fn new() -> (m: ViewMap)
        ensures
            m@ =~= Map::<Seq<char>, Set<Seq<char>>>::empty(),
            m.wf(),
    {
        let m = ViewMap(StringHashMap::new());
        proof {
            assert(m@ =~= Map::<Seq<char>, Set<Seq<char>>>::empty());
        }
        m
    }

    /// Content registration: binds a view name to its element-id set.
    pub fn register(&mut self, name: String, view_def: ViewDef)
        requires
            old(self).wf(),
            view_def.0.wf(),
        ensures
            final(self)@ =~= old(self)@.insert(name@, view_def.0@),
            final(self).wf(),
    {
        let ghost gname = name@;
        let ghost gset = view_def.0@;
        self.0.insert(name, view_def);
        proof {
            assert(self@ =~= old(self)@.insert(gname, gset));
        }
    }

    /// Looks a view up by name.
    pub fn get(&self, name: &str) -> (r: Option<&ViewDef>)
        ensures
            match r {
                Some(v) => self@.contains_key(name@) && v.0@ == self@[name@] && (self.wf()
                    ==> v.0.wf()),
                None => !self@.contains_key(name@),
            },
    {
        self.0.get(name)
    }
}

/// The ordered stack of overlay view names; the last entry is the topmost
/// view and the only one that receives pointer input.
pub struct ViewStack(pub Vec<String>);

impl View for ViewStack {
    type V = Seq<Seq<char>>;

    open spec fn view(&self) -> Seq<Seq<char>> {
        self.0@.map_values(|s: String| s@)
    }
}

impl ViewStack {
    /// An empty stack: no overlay is shown.
    pub fn new() -> (s: ViewStack)
        ensures
            s@ =~= Seq::<Seq<char>>::empty(),
    {
        let s = ViewStack(Vec::new());
        proof {
            assert(s@ =~= Seq::<Seq<char>>::empty());
        }
        s
    }

    /// The name of the topmost view, if any view is shown.
    pub fn top(&self) -> (r: Option<&String>)
        ensures
            match r {
                Some(v) => self@.len() > 0 && v@ == self@.last(),
                None => self@.len() == 0,
            },
    {
        if self.0.len() == 0 {
            None
        } else {
            let r = &self.0[self.0.len() - 1];
            proof {
                assert(self.0@[self.0@.len() - 1]@ == self@.last());
            }
            Some(r)
        }
    }
}

} // verus!
