use symbol_builtin::heap::Heap;
use symbol_builtin::object::ObjectRecord;
use symbol_builtin::symbol::{call_symbol, construct_symbol, create_constructor, invoke, to_string};
use symbol_builtin::value::{to_display_string, NativeMethod, Value};

fn symbol_index(v: &Value) -> usize {
    match v {
        Value::Symbol(i) => *i,
        _ => panic!("expected a Symbol value"),
    }
}

fn object_index(v: &Value) -> usize {
    match v {
        Value::Object(i) => *i,
        _ => panic!("expected an Object value"),
    }
}

fn string_of(v: &Value) -> String {
    match v {
        Value::Str(s) => s.clone(),
        _ => panic!("expected a String value"),
    }
}

#[test]
fn description_stores_string_argument() {
    let mut heap = Heap::new();
    let args = vec![Value::Str(String::from("hello"))];
    let r = call_symbol(&mut heap, &Value::Undefined, &args).unwrap();
    let i = symbol_index(&r);
    let desc = heap.record(i).get_internal_slot("Description");
    assert_eq!(string_of(&desc), "hello");
}

#[test]
fn description_without_argument_is_undefined() {
    let mut heap = Heap::new();
    let r = call_symbol(&mut heap, &Value::Undefined, &[]).unwrap();
    let i = symbol_index(&r);
    let desc = heap.record(i).get_internal_slot("Description");
    assert!(matches!(desc, Value::Undefined));
}

#[test]
fn symbol_data_is_a_number() {
    let mut heap = Heap::new();
    let r = call_symbol(&mut heap, &Value::Undefined, &[]).unwrap();
    let i = symbol_index(&r);
    let data = heap.record(i).get_internal_slot("SymbolData");
    assert!(matches!(data, Value::Number(_)));
}

#[test]
fn to_string_quotes_a_description() {
    let mut heap = Heap::new();
    let args = vec![Value::Str(String::from("foo"))];
    let r = call_symbol(&mut heap, &Value::Undefined, &args).unwrap();
    let text = to_string(&heap, &r, &[]).unwrap();
    assert_eq!(string_of(&text), "Symbol(\"foo\")");
}

#[test]
fn to_string_quotes_an_absent_description() {
    let mut heap = Heap::new();
    let r = call_symbol(&mut heap, &Value::Undefined, &[]).unwrap();
    let text = to_string(&heap, &r, &[]).unwrap();
    assert_eq!(string_of(&text), "Symbol(\"undefined\")");
}

#[test]
fn equal_descriptions_distinct_references() {
    let mut heap = Heap::new();
    let args = vec![Value::Str(String::from("twin"))];
    let r1 = call_symbol(&mut heap, &Value::Undefined, &args).unwrap();
    let r2 = call_symbol(&mut heap, &Value::Undefined, &args).unwrap();
    let i1 = symbol_index(&r1);
    let i2 = symbol_index(&r2);
    assert_ne!(i1, i2);
    let d1 = heap.record(i1).get_internal_slot("Description");
    let d2 = heap.record(i2).get_internal_slot("Description");
    assert_eq!(string_of(&d1), string_of(&d2));
}

#[test]
fn ten_thousand_constructions_stay_distinct() {
    let mut heap = Heap::new();
    let args = vec![Value::Str(String::from("s"))];
    let mut indices = Vec::new();
    for _ in 0..10_000 {
        let r = call_symbol(&mut heap, &Value::Undefined, &args).unwrap();
        indices.push(symbol_index(&r));
    }
    for (n, i) in indices.iter().enumerate() {
        assert_eq!(*i, n);
        let desc = heap.record(*i).get_internal_slot("Description");
        assert_eq!(string_of(&desc), "s");
    }
}

#[test]
fn construct_symbol_stores_given_token() {
    let mut heap = Heap::new();
    let r = construct_symbol(&mut heap, &[], -17);
    let i = symbol_index(&r);
    let data = heap.record(i).get_internal_slot("SymbolData");
    assert!(matches!(data, Value::Number(-17)));
}

fn global_with_object_prototype() -> (Heap, Value, usize) {
    let mut heap = Heap::new();
    let object_prototype_idx = heap.allocate(ObjectRecord::new());
    let mut object_binding = ObjectRecord::new();
    object_binding.set_property("prototype", Value::Object(object_prototype_idx));
    let object_binding_idx = heap.allocate(object_binding);
    let mut global = ObjectRecord::new();
    global.set_property("Object", Value::Object(object_binding_idx));
    let global_idx = heap.allocate(global);
    (heap, Value::Object(global_idx), object_prototype_idx)
}

#[test]
fn constructor_prototype_wiring() {
    let (mut heap, global, object_prototype_idx) = global_with_object_prototype();
    let ctor = create_constructor(&mut heap, &global);
    let c = object_index(&ctor);

    // The constructor's Prototype slot is the produced prototype object.
    let proto_val = heap.record(c).get_internal_slot("Prototype");
    let p = object_index(&proto_val);
    assert_ne!(p, c);

    // The prototype's Prototype slot is Object's prototype object.
    let ancestor = heap.record(p).get_internal_slot("Prototype");
    assert_eq!(object_index(&ancestor), object_prototype_idx);

    // The back-reference is an ordinary, user-visible property.
    let back = heap.record(p).own_property("construcotor").unwrap();
    assert_eq!(object_index(&back), c);

    // The method bindings are in place.
    let call = heap.record(c).get_internal_slot("call");
    assert!(matches!(call, Value::NativeFunction(NativeMethod::CallSymbol)));
    let to_string_binding = heap.record(p).get_internal_slot("toString");
    assert!(matches!(
        to_string_binding,
        Value::NativeFunction(NativeMethod::SymbolToString)
    ));
}

#[test]
fn invoke_dispatches_both_methods() {
    let mut heap = Heap::new();
    let args = vec![Value::Str(String::from("via-invoke"))];
    let r = invoke(&mut heap, NativeMethod::CallSymbol, &Value::Undefined, &args).unwrap();
    let text = invoke(&mut heap, NativeMethod::SymbolToString, &r, &[]).unwrap();
    assert_eq!(string_of(&text), "Symbol(\"via-invoke\")");
}

#[test]
fn display_coercion_of_exotic_arguments() {
    assert_eq!(to_display_string(&Value::Number(0)).as_str(), "0");
    assert_eq!(to_display_string(&Value::Number(-42)).as_str(), "-42");
    assert_eq!(to_display_string(&Value::Number(2147483647)).as_str(), "2147483647");
    assert_eq!(
        to_display_string(&Value::Number(-2147483648)).as_str(),
        "-2147483648"
    );
    assert_eq!(to_display_string(&Value::Boolean(true)).as_str(), "true");
    assert_eq!(to_display_string(&Value::Boolean(false)).as_str(), "false");
    assert_eq!(to_display_string(&Value::Null).as_str(), "null");
    assert_eq!(to_display_string(&Value::Undefined).as_str(), "undefined");
}

#[test]
fn number_argument_coerces_to_its_text() {
    let mut heap = Heap::new();
    let args = vec![Value::Number(-7)];
    let r = call_symbol(&mut heap, &Value::Undefined, &args).unwrap();
    let text = to_string(&heap, &r, &[]).unwrap();
    assert_eq!(string_of(&text), "Symbol(\"-7\")");
}

#[test]
fn property_access_cannot_touch_internal_slots() {
    let mut heap = Heap::new();
    let r = call_symbol(
        &mut heap,
        &Value::Undefined,
        &[Value::Str(String::from("guarded"))],
    )
    .unwrap();
    let i = symbol_index(&r);

    // An ordinary property under a slot's name neither reads nor clobbers it.
    assert!(heap.record(i).own_property("Description").is_none());
    heap.set_property_at(i, "Description", Value::Str(String::from("forged")));
    let desc = heap.record(i).get_internal_slot("Description");
    assert_eq!(string_of(&desc), "guarded");

    // And a slot write stays invisible to ordinary property access.
    heap.set_internal_slot_at(i, "Hidden", Value::Number(1));
    assert!(heap.record(i).own_property("Hidden").is_none());
}

#[test]
fn slot_overwrite_and_default() {
    let mut rec = ObjectRecord::new();
    assert!(matches!(rec.get_internal_slot("anything"), Value::Undefined));
    rec.set_internal_slot("state", Value::Number(1));
    rec.set_internal_slot("state", Value::Number(2));
    assert!(matches!(rec.get_internal_slot("state"), Value::Number(2)));
    assert!(matches!(rec.get_internal_slot("other"), Value::Undefined));
}

#[test]
fn lookup_walks_the_prototype_chain() {
    let mut heap = Heap::new();
    let mut ancestor = ObjectRecord::new();
    ancestor.set_property("inherited", Value::Number(5));
    let a = heap.allocate(ancestor);
    let mut child = ObjectRecord::new();
    child.set_internal_slot("Prototype", Value::Object(a));
    child.set_property("own", Value::Number(9));
    let c = heap.allocate(child);

    let own = heap.get_field(&Value::Object(c), "own");
    assert!(matches!(own, Value::Number(9)));
    let inherited = heap.get_field(&Value::Object(c), "inherited");
    assert!(matches!(inherited, Value::Number(5)));
    let missing = heap.get_field(&Value::Object(c), "absent");
    assert!(matches!(missing, Value::Undefined));
}

#[test]
fn cyclic_prototype_chain_terminates() {
    let mut heap = Heap::new();
    // Misconfigure: the record's prototype link is the index it is about to
    // be allocated at, closing a one-object cycle.
    let mut looped = ObjectRecord::new();
    looped.set_internal_slot("Prototype", Value::Object(0));
    let a = heap.allocate(looped);
    assert_eq!(a, 0);
    let probe = heap.get_field(&Value::Object(a), "nowhere");
    assert!(matches!(probe, Value::Undefined));
}

#[test]
fn constructor_returns_ok_never_err() {
    let mut heap = Heap::new();
    for _ in 0..3 {
        assert!(call_symbol(&mut heap, &Value::Undefined, &[]).is_ok());
    }
}
