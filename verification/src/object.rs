//! Heap objects: a table of ordinary, user-visible properties and a table of
//! hidden internal slots. The two tables never mix: ordinary property access
//! cannot read or write an internal slot, so specification-level state cannot
//! be tampered with from user code.
use vstd::prelude::*;

use crate::value::{abs_value_valid, AbsValue, NativeMethod, Value};

verus! {

/// First-match lookup in an entry table, by the key's character sequence.
pub open spec fn entry_lookup(s: Seq<(String, Value)>, k: Seq<char>) -> Option<AbsValue>
    decreases s.len(),
{
    if s.len() == 0 {
        None
    } else if s[0].0@ == k {
        Some(s[0].1@)
    } else {
        entry_lookup(s.drop_first(), k)
    }
}

/// Lookup that treats an absent entry as Undefined, as internal-slot reads do.
pub open spec fn lookup_or_undefined(s: Seq<(String, Value)>, k: Seq<char>) -> AbsValue {
    match entry_lookup(s, k) {
        Some(a) => a,
        None => AbsValue::Undefined,
    }
}

/// If no entry before position `i` matches `k`, the lookup is decided at or
/// after `i`: at `i` itself when `i` matches, and nowhere when `i` is the end.
proof fn lemma_lookup_at(s: Seq<(String, Value)>, k: Seq<char>, i: int)
    requires
        0 <= i <= s.len(),
        forall|j: int| 0 <= j < i ==> s[j].0@ != k,
    ensures
        i < s.len() && s[i].0@ == k ==> entry_lookup(s, k) == Some(s[i].1@),
        i == s.len() ==> entry_lookup(s, k) is None,
    decreases i,
{
    if i > 0 {
        lemma_lookup_at(s.drop_first(), k, i - 1);
    }
}

/// Overwriting the first entry that matches its own key changes that key's
/// lookup to the new payload and no other key's lookup at all.
proof fn lemma_lookup_update(s: Seq<(String, Value)>, i: int, p: (String, Value))
    requires
        0 <= i < s.len(),
        forall|j: int| 0 <= j < i ==> s[j].0@ != s[i].0@,
        p.0@ == s[i].0@,
    ensures
        entry_lookup(s.update(i, p), s[i].0@) == Some(p.1@),
        forall|m: Seq<char>|
            m != s[i].0@ ==> entry_lookup(s.update(i, p), m) == entry_lookup(s, m),
    decreases s.len(),
{
    let u = s.update(i, p);
    if i == 0 {
        assert(u.drop_first() =~= s.drop_first());
    } else {
        assert(u.drop_first() =~= s.drop_first().update(i - 1, p));
        lemma_lookup_update(s.drop_first(), i - 1, p);
    }
    assert forall|m: Seq<char>| m != s[i].0@ implies entry_lookup(u, m) == entry_lookup(s, m) by {
        if i == 0 {
            assert(entry_lookup(u, m) == entry_lookup(u.drop_first(), m));
            assert(entry_lookup(s, m) == entry_lookup(s.drop_first(), m));
        } else {
            if s[0].0@ == m {
                assert(u[0] == s[0]);
            } else {
                assert(entry_lookup(u, m) == entry_lookup(u.drop_first(), m));
                assert(entry_lookup(s, m) == entry_lookup(s.drop_first(), m));
            }
        }
    }
}

/// Appending an entry under a key the table does not hold changes that key's
/// lookup to the new payload and no other key's lookup at all.
proof fn lemma_lookup_push(s: Seq<(String, Value)>, k: Seq<char>, p: (String, Value))
    requires
        forall|j: int| 0 <= j < s.len() ==> s[j].0@ != k,
        p.0@ == k,
    ensures
        entry_lookup(s.push(p), k) == Some(p.1@),
        forall|m: Seq<char>| m != k ==> entry_lookup(s.push(p), m) == entry_lookup(s, m),
    decreases s.len(),
{
    let u = s.push(p);
    if s.len() == 0 {
        assert(u.drop_first() =~= Seq::<(String, Value)>::empty());
    } else {
        assert(u.drop_first() =~= s.drop_first().push(p));
        lemma_lookup_push(s.drop_first(), k, p);
    }
    assert forall|m: Seq<char>| m != k implies entry_lookup(u, m) == entry_lookup(s, m) by {
        if s.len() == 0 {
            assert(entry_lookup(u, m) == entry_lookup(u.drop_first(), m));
        } else {
            if s[0].0@ == m {
                assert(u[0] == s[0]);
            } else {
                assert(entry_lookup(u, m) == entry_lookup(u.drop_first(), m));
                assert(entry_lookup(s, m) == entry_lookup(s.drop_first(), m));
            }
        }
    }
}

/// Position of the first entry whose key reads as `key`, if any.
fn find_entry(table: &Vec<(String, Value)>, key: &String) -> (r: Option<usize>)
    ensures
        match r {
            Some(i) => i < table@.len() && table@[i as int].0@ == key@ && forall|j: int|
                0 <= j < i ==> table@[j].0@ != key@,
            None => forall|j: int| 0 <= j < table@.len() ==> table@[j].0@ != key@,
        },
{
    let mut i: usize = 0;
    while i < table.len()
        invariant
            i <= table@.len(),
            forall|j: int| 0 <= j < i ==> table@[j].0@ != key@,
        decreases table@.len() - i,
    {
        if table[i].0 == *key {
            return Some(i);
        }
        i = i + 1;
    }
    None
}

/// Sets `key` to `value` in the table: overwrites the first matching entry,
/// or appends one. Exactly that key's lookup changes.
fn table_set(table: &mut Vec<(String, Value)>, key: String, value: Value)
    ensures
        lookup_or_undefined(final(table)@, key@) == value@,
        entry_lookup(final(table)@, key@) == Some(value@),
        forall|m: Seq<char>|
            m != key@ ==> entry_lookup(final(table)@, m) == entry_lookup(old(table)@, m),
{
    let ghost s0 = table@;
    let ghost k = key@;
    match find_entry(table, &key) {
        Some(i) => {
            table[i] = (key, value);
            proof {
                lemma_lookup_update(s0, i as int, final(table)@[i as int]);
            }
        },
        None => {
            table.push((key, value));
            proof {
                lemma_lookup_push(s0, k, final(table)@[s0.len() as int]);
            }
        },
    }
}

/// A heap object: ordinary properties, hidden internal slots. Prototype
/// delegation is not stored here; it is a lookup discipline over the arena
/// (see `heap`), driven by the object's `"Prototype"` internal slot.
pub struct ObjectRecord {
    /// User-visible, enumerable properties, in insertion order.
    pub properties: Vec<(String, Value)>,
    /// Specification-level state, invisible to ordinary property access.
    pub internal_slots: Vec<(String, Value)>,
}

impl ObjectRecord {
    /// The value of an internal slot; Undefined when the slot was never set.
    pub open spec fn spec_slot(&self, k: Seq<char>) -> AbsValue {
        lookup_or_undefined(self.internal_slots@, k)
    }

    /// The value of an ordinary own property; None when absent, which is what
    /// sends a lookup on to the prototype chain.
    pub open spec fn spec_prop(&self, k: Seq<char>) -> Option<AbsValue> {
        entry_lookup(self.properties@, k)
    }

    /// Every reference the object holds points below `n`.
    pub open spec fn valid(&self, n: nat) -> bool {
        &&& forall|k: Seq<char>| abs_value_valid(#[trigger] self.spec_slot(k), n)
        &&& forall|k: Seq<char>|
            match #[trigger] self.spec_prop(k) {
                Some(a) => abs_value_valid(a, n),
                None => true,
            }
    }

    /// Validity only constrains references from above: an object valid for a
    /// small arena is valid for every larger one. The arena only grows, so
    /// validity, once established, is kept.
    pub proof fn lemma_valid_mono(&self, n1: nat, n2: nat)
        requires
            self.valid(n1),
            n1 <= n2,
        ensures
            self.valid(n2),
    {
        assert forall|k: Seq<char>| abs_value_valid(#[trigger] self.spec_slot(k), n2) by {
            assert(abs_value_valid(self.spec_slot(k), n1));
        }
        assert forall|k: Seq<char>|
            match #[trigger] self.spec_prop(k) {
                Some(a) => abs_value_valid(a, n2),
                None => true,
            } by {
            assert(match self.spec_prop(k) {
                Some(a) => abs_value_valid(a, n1),
                None => true,
            });
        }
    }

    /// A fresh object: no properties, no internal slots.
    pub fn new() -> (r: ObjectRecord)
        ensures
            r.properties@ == Seq::<(String, Value)>::empty(),
            r.internal_slots@ == Seq::<(String, Value)>::empty(),
            forall|k: Seq<char>| #[trigger] r.spec_slot(k) == AbsValue::Undefined,
            forall|k: Seq<char>| #[trigger] r.spec_prop(k) is None,
    {
        ObjectRecord { properties: Vec::new(), internal_slots: Vec::new() }
    }

    /// Unconditionally sets an internal slot; never fails. Ordinary
    /// properties are untouched, as are all other slots.
    pub fn set_internal_slot(&mut self, name: &str, value: Value)
        ensures
            final(self).spec_slot(name@) == value@,
            forall|k: Seq<char>|
                k != name@ ==> #[trigger] final(self).spec_slot(k) == old(self).spec_slot(k),
            final(self).properties == old(self).properties,
    {
        table_set(&mut self.internal_slots, name.to_owned(), value);
    }

    /// Reads an internal slot; Undefined when it was never set.
    pub fn get_internal_slot(&self, name: &str) -> (r: Value)
        ensures
            r@ == self.spec_slot(name@),
    {
        let key: String = name.to_owned();
        match find_entry(&self.internal_slots, &key) {
            Some(i) => {
                proof {
                    lemma_lookup_at(self.internal_slots@, key@, i as int);
                }
                self.internal_slots[i].1.duplicate()
            },
            None => {
                proof {
                    lemma_lookup_at(self.internal_slots@, key@, self.internal_slots@.len() as int);
                }
                Value::Undefined
            },
        }
    }

    /// Binds a named method of the object to a native algorithm. Stored as
    /// internal state, like the slots it lives beside.
    pub fn set_internal_method(&mut self, name: &str, m: NativeMethod)
        ensures
            final(self).spec_slot(name@) == AbsValue::Native(m),
            forall|k: Seq<char>|
                k != name@ ==> #[trigger] final(self).spec_slot(k) == old(self).spec_slot(k),
            final(self).properties == old(self).properties,
    {
        self.set_internal_slot(name, Value::NativeFunction(m));
    }

    /// Sets an ordinary, user-visible property. Internal slots are untouched,
    /// as are all other properties.
    pub fn set_property(&mut self, name: &str, value: Value)
        ensures
            final(self).spec_prop(name@) == Some(value@),
            forall|k: Seq<char>|
                k != name@ ==> #[trigger] final(self).spec_prop(k) == old(self).spec_prop(k),
            final(self).internal_slots == old(self).internal_slots,
    {
        table_set(&mut self.properties, name.to_owned(), value);
    }

    /// Reads an ordinary own property; None when the object has no such
    /// property of its own (prototype delegation is the arena's business).
    pub fn own_property(&self, name: &str) -> (r: Option<Value>)
        ensures
            match r {
                Some(v) => self.spec_prop(name@) == Some(v@),
                None => self.spec_prop(name@) is None,
            },
    {
        let key: String = name.to_owned();
        match find_entry(&self.properties, &key) {
            Some(i) => {
                proof {
                    lemma_lookup_at(self.properties@, key@, i as int);
                }
                Some(self.properties[i].1.duplicate())
            },
            None => {
                proof {
                    lemma_lookup_at(self.properties@, key@, self.properties@.len() as int);
                }
                None
            },
        }
    }
}

} // verus!
