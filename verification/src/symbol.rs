//! The Symbol builtin: the constructor's call behaviour, the prototype's
//! `toString`, and the factory that wires the constructor/prototype pair into
//! a global object. A Symbol is an ordinary heap record distinguished by
//! convention: it carries a `Description` slot (a string or Undefined) and a
//! `SymbolData` slot (a best-effort random token). Its identity is its
//! reference — the arena index — never its slot contents.
use vstd::prelude::*;

use crate::heap::{spec_lookup_field, value_slot, Heap, MAX_PROTOTYPE_HOPS};
use crate::object::ObjectRecord;
use crate::value::{display_of, to_display_string, AbsValue, NativeMethod, Value};
use crate::ResultValue;

verus! {

/// Relies on rand::random::<i32>: one uniform draw from the thread-local
/// generator. Nothing is promised of the value — two draws may collide — so
/// every caller must be correct for every outcome.
#[verifier::external_body]
fn random_i32() -> i32 {
    rand::random::<i32>()
}

/// The Description a construction stores: the string form of the first
/// argument, or Undefined when no argument was supplied — never the string
/// "undefined".
pub open spec fn description_of(args: Seq<Value>) -> AbsValue {
    if args.len() > 0 {
        AbsValue::Str(display_of(args[0]@))
    } else {
        AbsValue::Undefined
    }
}

/// How one Symbol construction relates the arena before, the arena after and
/// the produced value: exactly one fresh record, referenced by the result,
/// carrying the description and a numeric token and nothing else, with every
/// prior object untouched.
pub open spec fn symbol_constructed(
    pre: Seq<ObjectRecord>,
    post: Seq<ObjectRecord>,
    args: Seq<Value>,
    r: AbsValue,
) -> bool {
    &&& post.len() == pre.len() + 1
    &&& forall|j: int| 0 <= j < pre.len() ==> post[j] == pre[j]
    &&& r == AbsValue::SymbolRef(pre.len() as nat)
    &&& post[pre.len() as int].spec_slot("Description"@) == description_of(args)
    &&& post[pre.len() as int].spec_slot("SymbolData"@) matches AbsValue::Number(_)
    &&& forall|k: Seq<char>|
        k != "Description"@ && k != "SymbolData"@ ==> post[pre.len() as int].spec_slot(k)
            == AbsValue::Undefined
    &&& forall|k: Seq<char>| post[pre.len() as int].spec_prop(k) is None
}

/// The Symbol construction algorithm, given its uniqueness token: allocates a
/// fresh record, stores the coerced description (or Undefined when there is
/// no argument) and the token in its internal slots, and returns the record
/// wrapped as a Symbol value. Verified for every token value — the token is a
/// cheap introspection aid, not an identity mechanism.
pub fn construct_symbol(heap: &mut Heap, args: &[Value], token: i32) -> (r: Value)
    requires
        old(heap).wf(),
    ensures
        final(heap).wf(),
        symbol_constructed(old(heap).objects@, final(heap).objects@, args@, r@),
        final(heap).objects@[old(heap).objects@.len() as int].spec_slot("SymbolData"@)
            == AbsValue::Number(token),
{
    let mut sym_instance = ObjectRecord::new();
    let desc: Value = if args.len() > 0 {
        Value::Str(to_display_string(&args[0]))
    } else {
        Value::Undefined
    };
    sym_instance.set_internal_slot("Description", desc);
    sym_instance.set_internal_slot("SymbolData", Value::Number(token));
    proof {
        reveal_strlit("Description");
        reveal_strlit("SymbolData");
        assert("Description"@.len() == 11);
        assert("SymbolData"@.len() == 10);
    }
    let i = heap.allocate(sym_instance);
    Value::Symbol(i)
}

/// The Symbol constructor's call behaviour: draws the random token, then
/// constructs the record. The receiver is ignored, as a constructor called
/// as a function ignores it. The token is random, so the contract pins
/// everything but its value; no error path exists.
pub fn call_symbol(heap: &mut Heap, _this: &Value, args: &[Value]) -> (r: ResultValue)
    requires
        old(heap).wf(),
    ensures
        final(heap).wf(),
        r matches Ok(v) && symbol_constructed(
            old(heap).objects@,
            final(heap).objects@,
            args@,
            v@,
        ),
{
    let token = random_i32();
    Ok(construct_symbol(heap, args, token))
}

/// Constructing a Symbol and then reading its `Description` slot through the
/// returned reference yields exactly the stored description: the string form
/// of the argument, or Undefined when there was none.
pub proof fn lemma_construct_then_read_description(
    pre: Seq<ObjectRecord>,
    post: Seq<ObjectRecord>,
    args: Seq<Value>,
    r: AbsValue,
)
    requires
        symbol_constructed(pre, post, args, r),
    ensures
        value_slot(post, r, "Description"@) == description_of(args),
        args.len() > 0 ==> (forall|s: Seq<char>|
            args[0]@ == AbsValue::Str(s) ==> value_slot(post, r, "Description"@)
                == AbsValue::Str(s)),
        args.len() == 0 ==> value_slot(post, r, "Description"@) == AbsValue::Undefined,
        args.len() == 0 ==> value_slot(post, r, "Description"@) != AbsValue::Str("undefined"@),
{
}

/// Symbol identity is reference identity: two constructions in succession
/// produce distinct references, even from equal argument lists whose stored
/// Description slots compare equal. No equality based on slot contents is
/// sound.
pub proof fn lemma_symbols_distinct(
    h0: Seq<ObjectRecord>,
    h1: Seq<ObjectRecord>,
    h2: Seq<ObjectRecord>,
    a1: Seq<Value>,
    a2: Seq<Value>,
    r1: AbsValue,
    r2: AbsValue,
)
    requires
        symbol_constructed(h0, h1, a1, r1),
        symbol_constructed(h1, h2, a2, r2),
    ensures
        r1 != r2,
        h2[h0.len() as int].spec_slot("Description"@) == description_of(a1),
        h2[h1.len() as int].spec_slot("Description"@) == description_of(a2),
{
    assert(h2[h0.len() as int] == h1[h0.len() as int]);
}

/// The arena after the `i`-th construction of a run holds `i` more objects
/// than it started with: each construction adds exactly one record.
proof fn lemma_run_len(
    heaps: Seq<Seq<ObjectRecord>>,
    argss: Seq<Seq<Value>>,
    rs: Seq<AbsValue>,
    i: int,
)
    requires
        heaps.len() == rs.len() + 1,
        argss.len() == rs.len(),
        forall|t: int|
            0 <= t < rs.len() ==> symbol_constructed(
                #[trigger] heaps[t],
                heaps[t + 1],
                argss[t],
                rs[t],
            ),
        0 <= i <= rs.len(),
    ensures
        heaps[i].len() == heaps[0].len() + i,
    decreases i,
{
    if i > 0 {
        lemma_run_len(heaps, argss, rs, i - 1);
        assert(symbol_constructed(heaps[i - 1], heaps[i], argss[i - 1], rs[i - 1]));
    }
}

/// However long a run of constructions, every call's reference is distinct
/// from every other call's: the `i`-th call returns the index the arena had
/// grown to by then, and the arena grows with every call. Token collisions,
/// which the contract permits, cannot defeat this.
pub proof fn lemma_construction_run_distinct(
    heaps: Seq<Seq<ObjectRecord>>,
    argss: Seq<Seq<Value>>,
    rs: Seq<AbsValue>,
)
    requires
        heaps.len() == rs.len() + 1,
        argss.len() == rs.len(),
        forall|t: int|
            0 <= t < rs.len() ==> symbol_constructed(
                #[trigger] heaps[t],
                heaps[t + 1],
                argss[t],
                rs[t],
            ),
    ensures
        forall|i: int, j: int| 0 <= i < j < rs.len() ==> rs[i] != rs[j],
{
    assert forall|i: int, j: int| 0 <= i < j < rs.len() implies rs[i] != rs[j] by {
        lemma_run_len(heaps, argss, rs, i);
        lemma_run_len(heaps, argss, rs, j);
        assert(symbol_constructed(heaps[i], heaps[i + 1], argss[i], rs[i]));
        assert(symbol_constructed(heaps[j], heaps[j + 1], argss[j], rs[j]));
    }
}

/// The text `toString` produces for a description reading as `d`:
/// `Symbol("<d>")`. The quotes are unconditional, also around an absent
/// description — a deliberate deviation from the conventional display format,
/// kept because it is the observed behaviour.
pub open spec fn symbol_display(d: Seq<char>) -> Seq<char> {
    "Symbol(\""@ + d + "\")"@
}

/// `Symbol.prototype.toString`: reads the receiver's `Description` slot,
/// coerces it to its display text (Undefined reads as `undefined`), and
/// yields `Symbol("<text>")`. Total; the arguments play no part.
pub fn to_string(heap: &Heap, this: &Value, _args: &[Value]) -> (r: ResultValue)
    ensures
        r matches Ok(v) && v@ == AbsValue::Str(
            symbol_display(display_of(value_slot(heap.objects@, this@, "Description"@))),
        ),
{
    let s: Value = heap.get_internal_slot_of(this, "Description");
    let d = to_display_string(&s);
    let mut out = String::from_str("Symbol(\"");
    out.append(d.as_str());
    out.append("\")");
    proof {
        assert(out@ =~= symbol_display(display_of(value_slot(heap.objects@, this@, "Description"@))));
    }
    Ok(Value::Str(out))
}

/// Runs the native algorithm a method binding names, as the execution engine
/// does when a bound method is called. This is the link the factory's wiring
/// promises: the constructor's `call` tag means the construction algorithm,
/// the prototype's `toString` tag means the formatting algorithm.
pub fn invoke(heap: &mut Heap, m: NativeMethod, this: &Value, args: &[Value]) -> (r: ResultValue)
    requires
        old(heap).wf(),
    ensures
        final(heap).wf(),
        m == NativeMethod::CallSymbol ==> (r matches Ok(v) && symbol_constructed(
            old(heap).objects@,
            final(heap).objects@,
            args@,
            v@,
        )),
        m == NativeMethod::SymbolToString ==> (*final(heap) == *old(heap) && (r matches Ok(v) && v@
            == AbsValue::Str(
            symbol_display(display_of(value_slot(old(heap).objects@, this@, "Description"@))),
        ))),
{
    match m {
        NativeMethod::CallSymbol => call_symbol(heap, this, args),
        NativeMethod::SymbolToString => to_string(heap, this, args),
    }
}

/// The prototype object of `Object`, as the factory finds it: the
/// `"prototype"` property of the global object's `"Object"` binding, each
/// resolved along the prototype chain.
pub open spec fn object_prototype_of(objs: Seq<ObjectRecord>, global: AbsValue) -> AbsValue {
    spec_lookup_field(
        objs,
        spec_lookup_field(objs, global, "Object"@, MAX_PROTOTYPE_HOPS as nat),
        "prototype"@,
        MAX_PROTOTYPE_HOPS as nat,
    )
}

/// Assembles the Symbol constructor/prototype pair on the arena and returns
/// the constructor value, ready to be bound as a global. The wiring is the
/// observed one, asymmetry included:
/// - the prototype's hidden `Prototype` slot points at Object's prototype,
///   and its `toString` is bound to this module's formatting algorithm;
/// - the constructor's hidden `Prototype` slot points at the new prototype
///   object, and its call behaviour is bound to the construction algorithm;
/// - the back-reference from prototype to constructor is an ordinary,
///   enumerable property — visible to user code, unlike the rest of the
///   wiring — under the misspelt name `"construcotor"`, both kept as
///   observed behaviour.
pub fn create_constructor(heap: &mut Heap, global: &Value) -> (r: Value)
    requires
        old(heap).wf(),
    ensures
        final(heap).wf(),
        final(heap).objects@.len() == old(heap).objects@.len() + 2,
        forall|j: int|
            0 <= j < old(heap).objects@.len() ==> final(heap).objects@[j] == old(heap).objects@[j],
        ({
            let p = old(heap).objects@.len() as int;
            let c = p + 1;
            let ctor = final(heap).objects@[c];
            let proto = final(heap).objects@[p];
            &&& r@ == AbsValue::ObjectRef(c as nat)
            &&& ctor.spec_slot("Prototype"@) == AbsValue::ObjectRef(p as nat)
            &&& ctor.spec_slot("call"@) == AbsValue::Native(NativeMethod::CallSymbol)
            &&& forall|k: Seq<char>|
                k != "Prototype"@ && k != "call"@ ==> ctor.spec_slot(k) == AbsValue::Undefined
            &&& forall|k: Seq<char>| ctor.spec_prop(k) is None
            &&& proto.spec_slot("Prototype"@) == object_prototype_of(
                old(heap).objects@,
                global@,
            )
            &&& proto.spec_slot("toString"@) == AbsValue::Native(NativeMethod::SymbolToString)
            &&& forall|k: Seq<char>|
                k != "Prototype"@ && k != "toString"@ ==> proto.spec_slot(k)
                    == AbsValue::Undefined
            &&& proto.spec_prop("construcotor"@) == Some(AbsValue::ObjectRef(c as nat))
            &&& forall|k: Seq<char>| k != "construcotor"@ ==> proto.spec_prop(k) is None
        }),
{
    proof {
        reveal_strlit("Prototype");
        reveal_strlit("call");
        reveal_strlit("toString");
        reveal_strlit("construcotor");
        assert("Prototype"@.len() == 9);
        assert("call"@.len() == 4);
        assert("toString"@.len() == 8);
        assert("construcotor"@.len() == 12);
    }
    let mut symbol_constructor = ObjectRecord::new();
    symbol_constructor.set_internal_method("call", NativeMethod::CallSymbol);

    let mut symbol_prototype = ObjectRecord::new();
    let object_binding = heap.get_field(global, "Object");
    let object_prototype = heap.get_field(&object_binding, "prototype");
    proof {
        assert(object_prototype@ == object_prototype_of(old(heap).objects@, global@));
        crate::heap::lemma_lookup_field_valid(
            heap.objects@,
            global@,
            "Object"@,
            MAX_PROTOTYPE_HOPS as nat,
        );
        crate::heap::lemma_lookup_field_valid(
            heap.objects@,
            object_binding@,
            "prototype"@,
            MAX_PROTOTYPE_HOPS as nat,
        );
    }
    symbol_prototype.set_internal_slot("Prototype", object_prototype);
    symbol_prototype.set_internal_method("toString", NativeMethod::SymbolToString);

    let ghost proto_rec = symbol_prototype;
    let proto_idx = heap.allocate(symbol_prototype);
    let symbol_prototype_val = Value::Object(proto_idx);
    symbol_constructor.set_internal_slot("Prototype", symbol_prototype_val);

    let ghost ctor_rec = symbol_constructor;
    let ctor_idx = heap.allocate(symbol_constructor);
    let symbol_constructor_value = Value::Object(ctor_idx);
    heap.set_property_at(proto_idx, "construcotor", symbol_constructor_value.duplicate());
    proof {
        let p = old(heap).objects@.len() as int;
        let c = p + 1;
        let ctor = final(heap).objects@[c];
        let proto = final(heap).objects@[p];
        assert(proto.internal_slots == proto_rec.internal_slots);
        assert forall|k: Seq<char>|
            k != "Prototype"@ && k != "toString"@ implies proto.spec_slot(k)
            == AbsValue::Undefined by {
            assert(proto.spec_slot(k) == proto_rec.spec_slot(k));
        }
        assert forall|k: Seq<char>| k != "construcotor"@ implies proto.spec_prop(k) is None by {
            assert(proto.spec_prop(k) == proto_rec.spec_prop(k));
        }
        assert(ctor == ctor_rec);
        assert forall|k: Seq<char>|
            k != "Prototype"@ && k != "call"@ implies ctor.spec_slot(k) == AbsValue::Undefined by {
            assert(ctor.spec_slot(k) == ctor_rec.spec_slot(k));
        }
        assert(proto.spec_slot("Prototype"@) == proto_rec.spec_slot("Prototype"@));
        assert(proto.spec_slot("toString"@) == proto_rec.spec_slot("toString"@));
    }
    symbol_constructor_value
}

} // verus!
