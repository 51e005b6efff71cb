//! The game state: boolean flags, numeric variables and the inventory.

use vstd::prelude::*;
use crate::text::str_eq;

verus! {

/// The value stored under `key` in an association list (the first match).
pub open spec fn assoc_find<V>(entries: Seq<(String, V)>, key: Seq<char>) -> Option<V>
    decreases entries.len(),
{
    if entries.len() == 0 {
        None
    } else if entries[0].0@ == key {
        Some(entries[0].1)
    } else {
        assoc_find(entries.drop_first(), key)
    }
}

/// The state variables, flags, and inventory of the game.
#[derive(Debug)]
pub struct GameState {
    flags: Vec<(String, bool)>,
    variables: Vec<(String, i32)>,
    inventory: Vec<String>,
}

/// Where `key` is first stored in `entries`, if anywhere.
fn assoc_index<V>(entries: &Vec<(String, V)>, key: &str) -> (r: Option<usize>)
    ensures
        match r {
            Some(i) => i < entries@.len() && entries@[i as int].0@ == key@ && assoc_find(entries@, key@)
                == Some(entries@[i as int].1) && forall|j: int|
                0 <= j < i ==> #[trigger] entries@[j].0@ != key@,
            None => assoc_find(entries@, key@) is None && forall|j: int|
                0 <= j < entries@.len() ==> #[trigger] entries@[j].0@ != key@,
        },
{
    let mut i: usize = 0;
    assert(entries@.skip(0) =~= entries@);
    while i < entries.len()
        invariant
            i <= entries@.len(),
            assoc_find(entries@, key@) == assoc_find(entries@.skip(i as int), key@),
            forall|j: int| 0 <= j < i ==> #[trigger] entries@[j].0@ != key@,
        decreases entries.len() - i,
    {
        assert(entries@.skip(i as int).drop_first() =~= entries@.skip(i + 1));
        assert(entries@.skip(i as int)[0] == entries@[i as int]);
        if str_eq(entries[i].0.as_str(), key) {
            return Some(i);
        }
        i += 1;
    }
    None
}

proof fn lemma_assoc_find_update<V>(entries: Seq<(String, V)>, i: int, e: (String, V), key: Seq<char>)
    requires
        0 <= i < entries.len(),
        e.0@ == entries[i].0@,
        forall|j: int| 0 <= j < i ==> #[trigger] entries[j].0@ != e.0@,
    ensures
        assoc_find(entries.update(i, e), key) == if key == e.0@ {
            Some(e.1)
        } else {
            assoc_find(entries, key)
        },
    decreases entries.len(),
{
    let u = entries.update(i, e);
    if i > 0 {
        lemma_assoc_find_update(entries.drop_first(), i - 1, e, key);
        assert(u.drop_first() =~= entries.drop_first().update(i - 1, e));
        assert(u[0] == entries[0]);
    } else {
        assert(u.drop_first() =~= entries.drop_first());
        assert(u[0] == e);
    }
}

proof fn lemma_assoc_find_push<V>(entries: Seq<(String, V)>, e: (String, V), key: Seq<char>)
    requires
        forall|j: int| 0 <= j < entries.len() ==> #[trigger] entries[j].0@ != e.0@,
    ensures
        assoc_find(entries.push(e), key) == if key == e.0@ {
            Some(e.1)
        } else {
            assoc_find(entries, key)
        },
    decreases entries.len(),
{
    let p = entries.push(e);
    if entries.len() > 0 {
        lemma_assoc_find_push(entries.drop_first(), e, key);
        assert(p.drop_first() =~= entries.drop_first().push(e));
        assert(p[0] == entries[0]);
        assert(entries[0].0@ != e.0@);
        if key == entries[0].0@ {
            assert(assoc_find(p, key) == Some(entries[0].1));
            assert(assoc_find(entries, key) == Some(entries[0].1));
        } else {
            assert(assoc_find(p, key) == assoc_find(p.drop_first(), key));
            assert(assoc_find(entries, key) == assoc_find(entries.drop_first(), key));
        }
    } else {
        assert(p.drop_first() =~= Seq::<(String, V)>::empty());
        assert(p[0] == e);
        assert(assoc_find(p.drop_first(), key) is None);
    }
}

/// Stores `value` under `key`: replaces the first entry with that key, or
/// adds one at the end.
fn assoc_set<V>(entries: &mut Vec<(String, V)>, key: String, value: V)
    ensures
        forall|k: Seq<char>|
            #![trigger assoc_find(final(entries)@, k)]
            assoc_find(final(entries)@, k) == if k == key@ {
                Some(value)
            } else {
                assoc_find(old(entries)@, k)
            },
{
    match assoc_index(entries, key.as_str()) {
        Some(i) => {
            let ghost before = entries@;
            let ghost e = (key, value);
            entries.set(i, (key, value));
            proof {
                assert forall|k: Seq<char>| #[trigger] assoc_find(entries@, k) == if k == e.0@ {
                    Some(e.1)
                } else {
                    assoc_find(before, k)
                } by {
                    lemma_assoc_find_update(before, i as int, e, k);
                }
            }
        },
        None => {
            let ghost before = entries@;
            let ghost e = (key, value);
            entries.push((key, value));
            proof {
                assert forall|k: Seq<char>| #[trigger] assoc_find(entries@, k) == if k == e.0@ {
                    Some(e.1)
                } else {
                    assoc_find(before, k)
                } by {
                    lemma_assoc_find_push(before, e, k);
                }
            }
        },
    }
}

impl GameState {
    /// No item is listed twice in the inventory.
    #[verifier::type_invariant]
    spec fn inventory_distinct(self) -> bool {
        self.items().no_duplicates()
    }

    /// The flag stored under `name`, if any.
    pub closed spec fn flag_of(self, name: Seq<char>) -> Option<bool> {
        assoc_find(self.flags@, name)
    }

    /// The variable stored under `name`, if any.
    pub closed spec fn variable_of(self, name: Seq<char>) -> Option<i32> {
        assoc_find(self.variables@, name)
    }

    /// The collected item IDs, in the order they were collected.
    pub closed spec fn items(self) -> Seq<Seq<char>> {
        self.inventory@.map_values(|s: String| s@)
    }

    /// An empty state: no flags, no variables, no items.
    pub fn new() -> (s: GameState)
        ensures
            forall|k: Seq<char>| #[trigger] s.flag_of(k) is None,
            forall|k: Seq<char>| #[trigger] s.variable_of(k) is None,
            s.items() == Seq::<Seq<char>>::empty(),
    {
        let s = GameState { flags: Vec::new(), variables: Vec::new(), inventory: Vec::new() };
        assert(s.items() =~= Seq::<Seq<char>>::empty());
        s
    }

    /// The flag stored under `name`, if any.
    pub fn flag(&self, name: &str) -> (r: Option<bool>)
        ensures
            r == self.flag_of(name@),
    {
        match assoc_index(&self.flags, name) {
            Some(i) => Some(self.flags[i].1),
            None => None,
        }
    }

    /// Stores the flag `name`.
    pub fn set_flag(&mut self, name: String, value: bool)
        ensures
            forall|k: Seq<char>|
                #![trigger final(self).flag_of(k)]
                final(self).flag_of(k) == if k == name@ {
                    Some(value)
                } else {
                    old(self).flag_of(k)
                },
            forall|k: Seq<char>| #[trigger] final(self).variable_of(k) == old(self).variable_of(k),
            final(self).items() == old(self).items(),
    {
        proof {
            use_type_invariant(&*self);
        }
        let mut flags: Vec<(String, bool)> = Vec::new();
        std::mem::swap(&mut flags, &mut self.flags);
        assoc_set(&mut flags, name, value);
        self.flags = flags;
    }

    /// The variable stored under `name`, if any.
    pub fn variable(&self, name: &str) -> (r: Option<i32>)
        ensures
            r == self.variable_of(name@),
    {
        match assoc_index(&self.variables, name) {
            Some(i) => Some(self.variables[i].1),
            None => None,
        }
    }

    /// Stores the variable `name`.
    pub fn set_variable(&mut self, name: String, value: i32)
        ensures
            forall|k: Seq<char>|
                #![trigger final(self).variable_of(k)]
                final(self).variable_of(k) == if k == name@ {
                    Some(value)
                } else {
                    old(self).variable_of(k)
                },
            forall|k: Seq<char>| #[trigger] final(self).flag_of(k) == old(self).flag_of(k),
            final(self).items() == old(self).items(),
    {
        proof {
            use_type_invariant(&*self);
        }
        let mut variables: Vec<(String, i32)> = Vec::new();
        std::mem::swap(&mut variables, &mut self.variables);
        assoc_set(&mut variables, name, value);
        self.variables = variables;
    }

    /// Whether the item `id` has been collected.
    pub fn has_item(&self, id: &str) -> (r: bool)
        ensures
            r == self.items().contains(id@),
    {
        let mut i: usize = 0;
        while i < self.inventory.len()
            invariant
                i <= self.inventory@.len(),
                forall|j: int| 0 <= j < i ==> #[trigger] self.inventory@[j]@ != id@,
            decreases self.inventory.len() - i,
        {
            if str_eq(self.inventory[i].as_str(), id) {
                assert(self.items()[i as int] == id@);
                return true;
            }
            i += 1;
        }
        proof {
            if self.items().contains(id@) {
                let j = choose|j: int| 0 <= j < self.items().len() && self.items()[j] == id@;
                assert(self.inventory@[j]@ == id@);
            }
        }
        false
    }

    /// Adds the item `id` to the inventory unless it is already there.
    pub fn add_item(&mut self, id: String)
        ensures
            final(self).items() == if old(self).items().contains(id@) {
                old(self).items()
            } else {
                old(self).items().push(id@)
            },
            forall|k: Seq<char>| #[trigger] final(self).flag_of(k) == old(self).flag_of(k),
            forall|k: Seq<char>| #[trigger] final(self).variable_of(k) == old(self).variable_of(k),
    {
        proof {
            use_type_invariant(&*self);
        }
        if !self.has_item(id.as_str()) {
            let ghost before = self.items();
            let mut items: Vec<String> = Vec::new();
            std::mem::swap(&mut items, &mut self.inventory);
            items.push(id);
            proof {
                assert(items@.map_values(|s: String| s@) =~= before.push(id@));
                law_items_distinct(before, id@);
            }
            self.inventory = items;
        }
    }

    /// The collected item IDs, in the order they were collected; none is
    /// listed twice.
    pub fn item_ids(&self) -> (ids: &Vec<String>)
        ensures
            ids@.map_values(|s: String| s@) == self.items(),
            self.items().no_duplicates(),
    {
        proof {
            use_type_invariant(self);
        }
        &self.inventory
    }
}

impl Default for GameState {
    fn default() -> (s: GameState)
        ensures
            forall|k: Seq<char>| #[trigger] s.flag_of(k) is None,
            forall|k: Seq<char>| #[trigger] s.variable_of(k) is None,
            s.items() == Seq::<Seq<char>>::empty(),
    {
        GameState::new()
    }
}

/// `new` has the flags of `old`, except that `name` is `value`.
pub open spec fn flag_stored(old: GameState, new: GameState, name: Seq<char>, value: bool) -> bool {
    forall|k: Seq<char>|
        #![trigger new.flag_of(k)]
        new.flag_of(k) == if k == name {
            Some(value)
        } else {
            old.flag_of(k)
        }
}

/// `new` has the variables of `old`.
pub open spec fn same_variables(old: GameState, new: GameState) -> bool {
    forall|k: Seq<char>| #[trigger] new.variable_of(k) == old.variable_of(k)
}

/// The inventory after collecting `id`: unchanged if `id` is already there.
pub open spec fn with_item(items: Seq<Seq<char>>, id: Seq<char>) -> Seq<Seq<char>> {
    if items.contains(id) {
        items
    } else {
        items.push(id)
    }
}

/// Collecting an item never lists an item twice in an inventory that held
/// none twice.
pub proof fn law_items_distinct(items: Seq<Seq<char>>, id: Seq<char>)
    requires
        items.no_duplicates(),
    ensures
        with_item(items, id).no_duplicates(),
{
    if !items.contains(id) {
        let t = items.push(id);
        assert forall|i: int, j: int| 0 <= i < t.len() && 0 <= j < t.len() && i != j implies t[i]
            != t[j] by {
            if i == items.len() as int {
                assert(items[j] == t[j]);
            } else if j == items.len() as int {
                assert(items[i] == t[i]);
            }
        }
    }
}

} // verus!
