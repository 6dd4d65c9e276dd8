//! Named signed counters shared by the whole shell.
//!
//! `get` treats an unknown field as 0; `set` on an unknown field is a no-op
//! that reports the miss instead of silently creating the field.

use vstd::prelude::*;
use vstd::hash_map::StringHashMap;
use crate::elements::GameDataOp;

verus! {

/// The mapping from field name to signed counter.
pub struct GameData {
    fields: StringHashMap<i32>,
}

/// The value a field reads as: its entry, or 0 when absent.
pub open spec fn field_value(m: Map<Seq<char>, i32>, name: Seq<char>) -> i32 {
    if m.contains_key(name) {
        m[name]
    } else {
        0
    }
}

/// What `set` does: updates a present field, leaves the map unchanged otherwise.
pub open spec fn set_field(m: Map<Seq<char>, i32>, name: Seq<char>, value: i32) -> Map<
    Seq<char>,
    i32,
> {
    if m.contains_key(name) {
        m.insert(name, value)
    } else {
        m
    }
}

/// The new value of a counter under one `GameDataOp`; additions wrap.
pub open spec fn op_value(current: i32, op: GameDataOp) -> i32 {
    match op {
        GameDataOp::Increment(n) => vstd::wrapping::i32_specs::wrapping_add(current, n),
        GameDataOp::Decrement(n) => vstd::wrapping::i32_specs::wrapping_sub(current, n),
        GameDataOp::SetValue(n) => n,
    }
}

/// What `change_field` does to the whole mapping.
pub open spec fn change_field_spec(m: Map<Seq<char>, i32>, name: Seq<char>, op: GameDataOp) -> Map<
    Seq<char>,
    i32,
> {
    set_field(m, name, op_value(field_value(m, name), op))
}

impl View for GameData {
    type V = Map<Seq<char>, i32>;

    closed spec fn view(&self) -> Map<Seq<char>, i32> {
        self.fields@
    }
}

impl GameData {
    /// An empty mapping, with no fields at all.
    pub fn new() -> (d: GameData)
        ensures
            d@ == Map::<Seq<char>, i32>::empty(),
    {
        GameData { fields: StringHashMap::new() }
    }

    /// Registration-time creation of a field, the only way a field enters the
    /// mapping.
    pub fn add(&mut self, name: &str, value: i32)
        ensures
            final(self)@ == old(self)@.insert(name@, value),
    {
        self.fields.insert(name.to_owned(), value);
    }

    /// Reads a field; an unknown field reads as 0.
    pub fn get(&self, name: &str) -> (v: i32)
        ensures
            v == field_value(self@, name@),
    {
        match self.fields.get(name) {
            Some(v) => *v,
            None => 0,
        }
    }

    /// Writes a field that already exists; an unknown field is left absent and
    /// the miss is reported through the result.
    pub fn set(&mut self, name: &str, value: i32) -> (known: bool)
        ensures
            final(self)@ == set_field(old(self)@, name@, value),
            known == old(self)@.contains_key(name@),
    {
        if self.fields.contains_key(name) {
            self.fields.insert(name.to_owned(), value);
            true
        } else {
            false
        }
    }

    /// Applies one counter operation to a field through the `set` rule.
    pub fn change_field(&mut self, name: &str, op: &GameDataOp) -> (known: bool)
        ensures
            final(self)@ == change_field_spec(old(self)@, name@, *op),
            known == old(self)@.contains_key(name@),
    {
        let current = self.get(name);
        let new_value = match op {
            GameDataOp::Increment(value) => current.wrapping_add(*value),
            GameDataOp::Decrement(value) => current.wrapping_sub(*value),
            GameDataOp::SetValue(value) => *value,
        };
        self.set(name, new_value)
    }
}

/// Incrementing and then decrementing a field by the same amount is a no-op
/// on the whole mapping, whether or not the field exists.
pub proof fn lemma_increment_decrement_round_trip(
    m: Map<Seq<char>, i32>,
    name: Seq<char>,
    n: i32,
)
    ensures
        change_field_spec(
            change_field_spec(m, name, GameDataOp::Increment(n)),
            name,
            GameDataOp::Decrement(n),
        ) == m,
{
    let m1 = change_field_spec(m, name, GameDataOp::Increment(n));
    let m2 = change_field_spec(m1, name, GameDataOp::Decrement(n));
    if m.contains_key(name) {
        let v = m[name];
        let up = vstd::wrapping::i32_specs::wrapping_add(v, n);
        let down = vstd::wrapping::i32_specs::wrapping_sub(up, n);
        assert(down == v);
        assert(m2 =~= m);
    } else {
        assert(m2 =~= m);
    }
}

/// Setting a field that was never added leaves the mapping without it.
pub proof fn lemma_set_unknown_is_noop(m: Map<Seq<char>, i32>, name: Seq<char>, value: i32)
    requires
        !m.contains_key(name),
    ensures
        set_field(m, name, value) == m,
        field_value(set_field(m, name, value), name) == 0,
{
}

} // verus!
