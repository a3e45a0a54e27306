//! The object arena: every heap object lives here at a stable index, and
//! every object reference is such an index. The arena only grows; objects are
//! reclaimed, if at all, by a collector outside this model, so an index once
//! handed out stays valid. Prototype-chain resolution is a lookup discipline
//! over the arena, not a stored structure.
use vstd::prelude::*;

use crate::object::ObjectRecord;
use crate::value::{abs_value_valid, AbsValue, Value};

verus! {

/// Bound on prototype-chain hops during a lookup. The chain is assembled once
/// at initialization by trusted code and is short; running into this bound
/// means a misconfigured (cyclic) chain, and the lookup then gives up with
/// Undefined rather than looping forever.
pub const MAX_PROTOTYPE_HOPS: usize = 64;

/// The arena index a reference value points at, if the value is a reference.
pub open spec fn ref_index_of(v: AbsValue) -> Option<nat> {
    match v {
        AbsValue::SymbolRef(i) => Some(i),
        AbsValue::ObjectRef(i) => Some(i),
        _ => None,
    }
}

/// Resolution of a property along the prototype chain: a miss on the object
/// itself consults its `"Prototype"` internal slot and repeats there, until
/// the link is not a reference (Undefined or Null ends the chain) or the hop
/// budget runs out.
pub open spec fn spec_lookup_field(
    objs: Seq<ObjectRecord>,
    v: AbsValue,
    name: Seq<char>,
    fuel: nat,
) -> AbsValue
    decreases fuel,
{
    match ref_index_of(v) {
        None => AbsValue::Undefined,
        Some(i) => if fuel == 0 || i >= objs.len() {
            AbsValue::Undefined
        } else {
            match objs[i as int].spec_prop(name) {
                Some(a) => a,
                None => spec_lookup_field(
                    objs,
                    objs[i as int].spec_slot("Prototype"@),
                    name,
                    (fuel - 1) as nat,
                ),
            }
        },
    }
}

/// On a well-formed arena, chain resolution only ever produces a value some
/// object holds, or Undefined; either way it is a valid value of the arena.
pub proof fn lemma_lookup_field_valid(
    objs: Seq<ObjectRecord>,
    v: AbsValue,
    name: Seq<char>,
    fuel: nat,
)
    requires
        forall|i: int| 0 <= i < objs.len() ==> (#[trigger] objs[i]).valid(objs.len()),
    ensures
        abs_value_valid(spec_lookup_field(objs, v, name, fuel), objs.len()),
    decreases fuel,
{
    match ref_index_of(v) {
        None => {},
        Some(i) => {
            if fuel == 0 || i >= objs.len() {
            } else {
                match objs[i as int].spec_prop(name) {
                    Some(a) => {},
                    None => {
                        lemma_lookup_field_valid(
                            objs,
                            objs[i as int].spec_slot("Prototype"@),
                            name,
                            (fuel - 1) as nat,
                        );
                    },
                }
            }
        },
    }
}

/// The internal slot a reference value's referent carries, Undefined when
/// the value is no reference or points outside the arena.
pub open spec fn value_slot(objs: Seq<ObjectRecord>, v: AbsValue, name: Seq<char>) -> AbsValue {
    match ref_index_of(v) {
        None => AbsValue::Undefined,
        Some(i) => if i >= objs.len() {
            AbsValue::Undefined
        } else {
            objs[i as int].spec_slot(name)
        },
    }
}

/// The object arena.
pub struct Heap {
    pub objects: Vec<ObjectRecord>,
}

impl Heap {
    /// Every object's references point into the arena.
    pub open spec fn wf(&self) -> bool {
        forall|i: int|
            0 <= i < self.objects@.len() ==> (#[trigger] self.objects@[i]).valid(
                self.objects@.len() as nat,
            )
    }

    pub fn new() -> (h: Heap)
        ensures
            h.objects@ == Seq::<ObjectRecord>::empty(),
            h.wf(),
    {
        Heap { objects: Vec::new() }
    }

    /// Places an object in the arena and hands out its index, the object's
    /// identity from now on. The object may already reference itself (its
    /// index is the arena's old length), hence validity at length-plus-one.
    pub fn allocate(&mut self, obj: ObjectRecord) -> (i: usize)
        requires
            old(self).wf(),
            obj.valid(old(self).objects@.len() + 1),
        ensures
            final(self).objects@ == old(self).objects@.push(obj),
            i == old(self).objects@.len(),
            final(self).wf(),
    {
        let i = self.objects.len();
        self.objects.push(obj);
        proof {
            let n = self.objects@.len() as nat;
            assert forall|j: int|
                0 <= j < self.objects@.len() implies (#[trigger] self.objects@[j]).valid(n) by {
                if j < i {
                    old(self).objects@[j].lemma_valid_mono((i as nat), n);
                } else {
                    obj.lemma_valid_mono(n, n);
                }
            }
        }
        i
    }

    /// The object at an index, for reading.
    pub fn record(&self, i: usize) -> (r: &ObjectRecord)
        requires
            i < self.objects@.len(),
        ensures
            *r == self.objects@[i as int],
    {
        &self.objects[i]
    }

    /// Sets an ordinary property on the object at `i`; no other object, no
    /// other property and no internal slot changes.
    pub fn set_property_at(&mut self, i: usize, name: &str, value: Value)
        requires
            old(self).wf(),
            i < old(self).objects@.len(),
            abs_value_valid(value@, old(self).objects@.len() as nat),
        ensures
            final(self).objects@.len() == old(self).objects@.len(),
            forall|j: int|
                0 <= j < old(self).objects@.len() && j != i ==> final(self).objects@[j] == old(
                    self,
                ).objects@[j],
            final(self).objects@[i as int].spec_prop(name@) == Some(value@),
            forall|k: Seq<char>|
                k != name@ ==> #[trigger] final(self).objects@[i as int].spec_prop(k) == old(
                    self,
                ).objects@[i as int].spec_prop(k),
            final(self).objects@[i as int].internal_slots == old(
                self,
            ).objects@[i as int].internal_slots,
            final(self).wf(),
    {
        self.objects[i].set_property(name, value);
        proof {
            let n = self.objects@.len() as nat;
            assert forall|j: int|
                0 <= j < self.objects@.len() implies (#[trigger] self.objects@[j]).valid(n) by {
                if j != i {
                    assert(self.objects@[j] == old(self).objects@[j]);
                } else {
                    let r = self.objects@[i as int];
                    let r0 = old(self).objects@[i as int];
                    assert forall|k: Seq<char>|
                        abs_value_valid(#[trigger] r.spec_slot(k), n) by {
                        assert(r.spec_slot(k) == r0.spec_slot(k));
                        assert(abs_value_valid(r0.spec_slot(k), n));
                    }
                    assert forall|k: Seq<char>|
                        match #[trigger] r.spec_prop(k) {
                            Some(a) => abs_value_valid(a, n),
                            None => true,
                        } by {
                        if k != name@ {
                            assert(r.spec_prop(k) == r0.spec_prop(k));
                            assert(match r0.spec_prop(k) {
                                Some(a) => abs_value_valid(a, n),
                                None => true,
                            });
                        }
                    }
                }
            }
        }
    }

    /// Sets an internal slot on the object at `i`; no other object, no other
    /// slot and no ordinary property changes.
    pub fn set_internal_slot_at(&mut self, i: usize, name: &str, value: Value)
        requires
            old(self).wf(),
            i < old(self).objects@.len(),
            abs_value_valid(value@, old(self).objects@.len() as nat),
        ensures
            final(self).objects@.len() == old(self).objects@.len(),
            forall|j: int|
                0 <= j < old(self).objects@.len() && j != i ==> final(self).objects@[j] == old(
                    self,
                ).objects@[j],
            final(self).objects@[i as int].spec_slot(name@) == value@,
            forall|k: Seq<char>|
                k != name@ ==> #[trigger] final(self).objects@[i as int].spec_slot(k) == old(
                    self,
                ).objects@[i as int].spec_slot(k),
            final(self).objects@[i as int].properties == old(self).objects@[i as int].properties,
            final(self).wf(),
    {
        self.objects[i].set_internal_slot(name, value);
        proof {
            let n = self.objects@.len() as nat;
            assert forall|j: int|
                0 <= j < self.objects@.len() implies (#[trigger] self.objects@[j]).valid(n) by {
                if j != i {
                    assert(self.objects@[j] == old(self).objects@[j]);
                } else {
                    let r = self.objects@[i as int];
                    let r0 = old(self).objects@[i as int];
                    assert forall|k: Seq<char>|
                        abs_value_valid(#[trigger] r.spec_slot(k), n) by {
                        if k != name@ {
                            assert(r.spec_slot(k) == r0.spec_slot(k));
                            assert(abs_value_valid(r0.spec_slot(k), n));
                        }
                    }
                    assert forall|k: Seq<char>|
                        match #[trigger] r.spec_prop(k) {
                            Some(a) => abs_value_valid(a, n),
                            None => true,
                        } by {
                        assert(r.spec_prop(k) == r0.spec_prop(k));
                        assert(match r0.spec_prop(k) {
                            Some(a) => abs_value_valid(a, n),
                            None => true,
                        });
                    }
                }
            }
        }
    }

    /// Reads an internal slot through a reference value: the slot of the
    /// referent, or Undefined when the value references nothing.
    pub fn get_internal_slot_of(&self, v: &Value, name: &str) -> (r: Value)
        ensures
            r@ == value_slot(self.objects@, v@, name@),
    {
        let i: usize = match v {
            Value::Symbol(i) => *i,
            Value::Object(i) => *i,
            _ => { return Value::Undefined; },
        };
        if i >= self.objects.len() {
            return Value::Undefined;
        }
        self.record(i).get_internal_slot(name)
    }

    /// Property lookup with prototype-chain delegation: exactly
    /// `spec_lookup_field` on the arena.
    pub fn lookup_field(&self, v: &Value, name: &str, fuel: usize) -> (r: Value)
        ensures
            r@ == spec_lookup_field(self.objects@, v@, name@, fuel as nat),
        decreases fuel,
    {
        let i: usize = match v {
            Value::Symbol(i) => *i,
            Value::Object(i) => *i,
            _ => { return Value::Undefined; },
        };
        if fuel == 0 || i >= self.objects.len() {
            return Value::Undefined;
        }
        match self.record(i).own_property(name) {
            Some(val) => val,
            None => {
                let proto = self.record(i).get_internal_slot("Prototype");
                self.lookup_field(&proto, name, fuel - 1)
            },
        }
    }

    /// Property lookup with the standard hop budget.
    pub fn get_field(&self, v: &Value, name: &str) -> (r: Value)
        ensures
            r@ == spec_lookup_field(self.objects@, v@, name@, MAX_PROTOTYPE_HOPS as nat),
    {
        self.lookup_field(v, name, MAX_PROTOTYPE_HOPS)
    }
}

} // verus!
