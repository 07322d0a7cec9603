//! Transitions describes how a Turing machine behaves.
//!
//! Depending on the current state and the symbol that the read/write head is
//! reading from the tape, a transition tells what state comes next, what symbol
//! to write and which way to move the head.

use crate::tm::movement::Movement;
use vstd::laws_eq::obeys_concrete_eq;
use vstd::prelude::*;

verus! {

/// `TransitionKey` describes the current context of the Turing machine, i.e. the
/// state the Turing machine is in and the symbol the read/write head is
/// scanning.
#[derive(PartialEq, Eq, Debug)]
pub struct TransitionKey<Q, S> {
    /// The state the Turing machine is in.
    pub state: Q,
    /// The symbol the read/write head is scanning.
    pub symbol: S,
}

impl<Q: Copy, S: Copy> Clone for TransitionKey<Q, S> {
    fn clone(&self) -> (key: TransitionKey<Q, S>)
        ensures
            key == *self,
    {
        *self
    }
}

impl<Q: Copy, S: Copy> Copy for TransitionKey<Q, S> {

}

impl<Q, S> TransitionKey<Q, S> {
    /// Create a `TransitionKey`
    pub fn new(state: Q, symbol: S) -> (key: TransitionKey<Q, S>)
        ensures
            key == (TransitionKey { state, symbol }),
    {
        TransitionKey { state, symbol }
    }
}

/// `TransitionValue` describes the next context of the Turing machine, i.e. the
/// state it should transition to, the symbol that it should write and the
/// movement of the head.
#[derive(PartialEq, Eq, Debug)]
pub struct TransitionValue<Q, S> {
    /// The state the Turing machine will be in after the transition.
    pub state: Q,
    /// The symbol to write in the cell the read/write head is scanning.
    pub symbol: S,
    /// The direction the head is moving in after the transition.
    pub movement: Movement,
}

impl<Q: Copy, S: Copy> Clone for TransitionValue<Q, S> {
    fn clone(&self) -> (value: TransitionValue<Q, S>)
        ensures
            value == *self,
    {
        *self
    }
}

impl<Q: Copy, S: Copy> Copy for TransitionValue<Q, S> {

}

impl<Q, S> TransitionValue<Q, S> {
    /// Create a `TransitionValue`
    pub fn new(state: Q, symbol: S, movement: Movement) -> (value: TransitionValue<Q, S>)
        ensures
            value == (TransitionValue { state, symbol, movement }),
    {
        TransitionValue { state, symbol, movement }
    }
}

/// Whether `==` on states and on symbols is equality of values. Looking a
/// key up compares states and symbols with `==`, so the table is a mapping
/// only for such types. `vstd::laws_eq::group_laws_eq` proves this of the
/// integer types, of `bool` and of tuples of them.
pub open spec fn compares_by_value<Q: PartialEq, S: PartialEq>() -> bool {
    obeys_concrete_eq::<Q>() && obeys_concrete_eq::<S>()
}

impl<Q: Copy + Eq, S: Copy + Eq> TransitionKey<Q, S> {
    /// Whether the two keys hold the same state and the same symbol.
    fn matches(&self, other: &TransitionKey<Q, S>) -> (same: bool)
        requires
            compares_by_value::<Q, S>(),
        ensures
            same == (*self == *other),
    {
        proof {
            reveal(obeys_concrete_eq);
        }
        self.state == other.state && self.symbol == other.symbol
    }
}

/// Transitions are used to describe the entire operation of a Turing machine.
///
/// A Turing machine is defined by the transitions it can make. The table is a
/// mapping from keys to values: it holds at most one transition for a key, and
/// inserting a transition for a key that it holds already replaces the old one.
#[derive(Debug)]
pub struct Transitions<Q: Copy + Eq, S: Copy + Eq> {
    keys: Vec<TransitionKey<Q, S>>,
    values: Vec<TransitionValue<Q, S>>,
}

impl<Q: Copy + Eq, S: Copy + Eq> View for Transitions<Q, S> {
    type V = Map<TransitionKey<Q, S>, TransitionValue<Q, S>>;

    closed spec fn view(&self) -> Map<TransitionKey<Q, S>, TransitionValue<Q, S>> {
        Map::new(
            |key: TransitionKey<Q, S>| self.keys@.contains(key),
            |key: TransitionKey<Q, S>| self.values@[self.keys@.index_of(key)],
        )
    }
}

impl<Q: Copy + Eq, S: Copy + Eq> Transitions<Q, S> {
    /// Each key has its value at the same index, and no key occurs twice.
    #[verifier::type_invariant]
    spec fn well_formed(&self) -> bool {
        &&& self.keys@.len() == self.values@.len()
        &&& self.keys@.no_duplicates()
    }

    /// Create transitions
    pub fn new() -> (transitions: Transitions<Q, S>)
        ensures
            transitions@ == Map::<TransitionKey<Q, S>, TransitionValue<Q, S>>::empty(),
    {
        Transitions { keys: Vec::new(), values: Vec::new() }
    }

    /// The index at which `key` is stored.
    fn position(&self, key: &TransitionKey<Q, S>) -> (found: Option<usize>)
        requires
            compares_by_value::<Q, S>(),
        ensures
            match found {
                Some(index) => index < self.keys@.len() && self.keys@[index as int] == *key,
                None => !self.keys@.contains(*key),
            },
    {
        let mut index: usize = 0;
        while index < self.keys.len()
            invariant
                index <= self.keys@.len(),
                compares_by_value::<Q, S>(),
                forall|i: int| 0 <= i < index ==> self.keys@[i] != *key,
            decreases self.keys@.len() - index,
        {
            if self.keys[index].matches(key) {
                return Some(index);
            }
            index += 1;
        }
        None
    }

    /// Insert a transition and return the new transitions. A transition that
    /// the table held for the same key is replaced.
    pub fn insert(self, key: TransitionKey<Q, S>, value: TransitionValue<Q, S>) -> (transitions:
        Transitions<Q, S>)
        requires
            compares_by_value::<Q, S>(),
        ensures
            transitions@ == self@.insert(key, value),
    {
        proof {
            use_type_invariant(&self);
        }
        let found = self.position(&key);
        let ghost old_keys = self.keys@;
        let mut keys = self.keys;
        let mut values = self.values;
        match found {
            Some(index) => {
                values.set(index, value);
            },
            None => {
                keys.push(key);
                values.push(value);
            },
        }
        let transitions = Transitions { keys, values };
        proof {
            let at = if found is Some {
                found.unwrap() as int
            } else {
                old_keys.len() as int
            };
            assert(transitions.keys@[at] == key);
            assert(transitions.values@[at] == value);
            let updated = self@.insert(key, value);
            assert forall|k: TransitionKey<Q, S>| updated.contains_key(k) implies #[trigger]
                transitions@.contains_key(k) && transitions@[k] == updated[k] by {
                let i = if k == key {
                    at
                } else {
                    old_keys.index_of(k)
                };
                assert(transitions.keys@[i] == k);
                assert(transitions.keys@.index_of(k) == i);
            }
            assert forall|k: TransitionKey<Q, S>| #[trigger]
                transitions@.contains_key(k) implies updated.contains_key(k) by {
                let i = transitions.keys@.index_of(k);
                if k != key {
                    assert(old_keys[i] == k);
                }
            }
            assert(transitions@ =~= updated);
        }
        transitions
    }

    /// The number of transitions
    pub fn len(&self) -> (count: usize)
        ensures
            self@.dom().finite(),
            count == self@.len(),
    {
        proof {
            use_type_invariant(self);
            self.keys@.unique_seq_to_set();
            assert(self@.dom() =~= self.keys@.to_set());
        }
        self.keys.len()
    }
}

impl<Q: Copy + Eq, S: Copy + Eq> Clone for Transitions<Q, S> {
    fn clone(&self) -> (transitions: Transitions<Q, S>)
        ensures
            transitions@ == self@,
    {
        proof {
            use_type_invariant(self);
        }
        let count: usize = self.keys.len();
        let mut keys: Vec<TransitionKey<Q, S>> = Vec::with_capacity(count);
        let mut values: Vec<TransitionValue<Q, S>> = Vec::with_capacity(count);
        let mut index: usize = 0;
        while index < count
            invariant
                index <= count,
                count == self.keys@.len(),
                count == self.values@.len(),
                keys@ == self.keys@.subrange(0, index as int),
                values@ == self.values@.subrange(0, index as int),
            decreases count - index,
        {
            keys.push(self.keys[index]);
            values.push(self.values[index]);
            index += 1;
        }
        assert(keys@ == self.keys@);
        assert(values@ == self.values@);
        Transitions { keys, values }
    }
}

/// Lookup a `TransitionKey`, returning a `TransitionValue`
///
/// This trait specifies the contract any collection of transitions should
/// adhere to: it is a mapping, and `lookup` returns what the mapping holds for
/// exactly the given state and symbol.
pub trait Lookup<Q: Copy + Eq, S: Copy + Eq>: View<
    V = Map<TransitionKey<Q, S>, TransitionValue<Q, S>>,
> {
    /// Lookup a specific `TransitionKey` in self.
    fn lookup(&self, key: &TransitionKey<Q, S>) -> (found: Option<TransitionValue<Q, S>>)
        requires
            compares_by_value::<Q, S>(),
        ensures
            self@.contains_key(*key) ==> found == Some(self@[*key]),
            !self@.contains_key(*key) ==> found is None,
    ;
}

impl<Q: Copy + Eq, S: Copy + Eq> Lookup<Q, S> for Transitions<Q, S> {
    /// Lookup a `TransitionKey`
    fn lookup(&self, target: &TransitionKey<Q, S>) -> (found: Option<TransitionValue<Q, S>>) {
        proof {
            use_type_invariant(self);
        }
        match self.position(target) {
            Some(index) => {
                assert(self.keys@.index_of(*target) == index);
                Some(self.values[index])
            },
            None => None,
        }
    }
}

/// The table that inserting `entries` one after the other, from the first to
/// the last, into the empty table gives.
pub open spec fn table_of<Q, S>(
    entries: Seq<(TransitionKey<Q, S>, TransitionValue<Q, S>)>,
) -> Map<TransitionKey<Q, S>, TransitionValue<Q, S>>
    decreases entries.len(),
{
    if entries.len() == 0 {
        Map::empty()
    } else {
        table_of(entries.drop_last()).insert(entries.last().0, entries.last().1)
    }
}

/// Inserting a transition into the table of `entries` gives the table of
/// `entries` with that transition as one more entry at the end; the empty table
/// is the table of no entries.
pub proof fn lemma_table_of_insert<Q, S>(
    entries: Seq<(TransitionKey<Q, S>, TransitionValue<Q, S>)>,
    key: TransitionKey<Q, S>,
    value: TransitionValue<Q, S>,
)
    ensures
        table_of(Seq::<(TransitionKey<Q, S>, TransitionValue<Q, S>)>::empty()) == Map::<
            TransitionKey<Q, S>,
            TransitionValue<Q, S>,
        >::empty(),
        table_of(entries.push((key, value))) == table_of(entries).insert(key, value),
{
    assert(entries.push((key, value)).drop_last() == entries);
}

/// Whether no two of `entries` have the same key.
pub open spec fn distinct_keys<Q, S>(
    entries: Seq<(TransitionKey<Q, S>, TransitionValue<Q, S>)>,
) -> bool {
    forall|i: int, j: int|
        0 <= i < j < entries.len() ==> (#[trigger] entries[i]).0 != (#[trigger] entries[j]).0
}

/// Whether one of `entries` has the key `key`.
pub open spec fn has_key<Q, S>(
    entries: Seq<(TransitionKey<Q, S>, TransitionValue<Q, S>)>,
    key: TransitionKey<Q, S>,
) -> bool {
    exists|i: int| 0 <= i < entries.len() && (#[trigger] entries[i]).0 == key
}

/// The table built from `entries` holds a transition for exactly the keys of
/// `entries`, which are finitely many.
proof fn lemma_table_of_keys<Q, S>(
    entries: Seq<(TransitionKey<Q, S>, TransitionValue<Q, S>)>,
    key: TransitionKey<Q, S>,
)
    ensures
        table_of(entries).dom().finite(),
        table_of(entries).contains_key(key) <==> has_key(entries, key),
    decreases entries.len(),
{
    if entries.len() > 0 {
        let rest = entries.drop_last();
        lemma_table_of_keys(rest, key);
        if has_key(rest, key) {
            let i = choose|i: int| 0 <= i < rest.len() && (#[trigger] rest[i]).0 == key;
            assert(entries[i].0 == key);
        }
        if has_key(entries, key) && entries.last().0 != key {
            let i = choose|i: int| 0 <= i < entries.len() && (#[trigger] entries[i]).0 == key;
            assert(rest[i].0 == key);
        }
        if entries.last().0 == key {
            assert(entries[entries.len() - 1].0 == key);
        }
    }
}

/// A table built by inserting entries with distinct keys holds as many
/// transitions as were inserted, maps each inserted key to the value that came
/// with it, and holds nothing for any other key.
pub proof fn lemma_table_of_distinct_keys<Q, S>(
    entries: Seq<(TransitionKey<Q, S>, TransitionValue<Q, S>)>,
)
    requires
        distinct_keys(entries),
    ensures
        table_of(entries).dom().finite(),
        table_of(entries).len() == entries.len(),
        forall|i: int|
            0 <= i < entries.len() ==> table_of(entries).contains_key((#[trigger] entries[i]).0)
                && table_of(entries)[entries[i].0] == entries[i].1,
        forall|key: TransitionKey<Q, S>|
            !has_key(entries, key) ==> !(#[trigger] table_of(entries).contains_key(key)),
    decreases entries.len(),
{
    assert forall|key: TransitionKey<Q, S>| !has_key(entries, key) implies !(#[trigger] table_of(
        entries,
    ).contains_key(key)) by {
        lemma_table_of_keys(entries, key);
    }
    if entries.len() > 0 {
        let rest = entries.drop_last();
        let last = entries.last();
        assert forall|i: int, j: int| 0 <= i < j < rest.len() implies (#[trigger] rest[i]).0 != (
        #[trigger] rest[j]).0 by {
            assert(rest[i] == entries[i] && rest[j] == entries[j]);
        }
        lemma_table_of_distinct_keys(rest);
        assert(!table_of(rest).contains_key(last.0)) by {
            lemma_table_of_keys(rest, last.0);
            if has_key(rest, last.0) {
                let i = choose|i: int| 0 <= i < rest.len() && (#[trigger] rest[i]).0 == last.0;
                assert(rest[i] == entries[i]);
                assert(entries[i].0 != entries[entries.len() - 1].0);
            }
        }
        assert forall|i: int| 0 <= i < entries.len() implies table_of(entries).contains_key(
            (#[trigger] entries[i]).0,
        ) && table_of(entries)[entries[i].0] == entries[i].1 by {
            if i < rest.len() {
                assert(rest[i] == entries[i]);
            }
        }
    }
}

/// The order in which two transitions with different keys are inserted makes
/// no difference to the table.
pub proof fn lemma_insert_order<Q, S>(
    table: Map<TransitionKey<Q, S>, TransitionValue<Q, S>>,
    first: (TransitionKey<Q, S>, TransitionValue<Q, S>),
    second: (TransitionKey<Q, S>, TransitionValue<Q, S>),
)
    requires
        first.0 != second.0,
    ensures
        table.insert(first.0, first.1).insert(second.0, second.1) == table.insert(
            second.0,
            second.1,
        ).insert(first.0, first.1),
{
}

/// Looking a key up is deterministic: whatever two calls of `lookup` on one
/// table and one key return is the same, and `None` exactly where the table
/// holds no transition for the key.
pub proof fn lemma_lookup_is_deterministic<Q: Copy + Eq, S: Copy + Eq>(
    transitions: Transitions<Q, S>,
    key: TransitionKey<Q, S>,
    first: Option<TransitionValue<Q, S>>,
    second: Option<TransitionValue<Q, S>>,
)
    requires
        call_ensures(Transitions::<Q, S>::lookup, (&transitions, &key), first),
        call_ensures(Transitions::<Q, S>::lookup, (&transitions, &key), second),
    ensures
        first == second,
        first is None <==> !transitions@.contains_key(key),
{
}

} // verus!
