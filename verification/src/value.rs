//! The uniform runtime value: a closed tagged union over the primitives and
//! over references to heap objects. Object and Symbol payloads are stable
//! indices into the object arena (see `heap`), so reference identity is index
//! equality.
use vstd::prelude::*;

verus! {

/// The native algorithms a builtin method can be bound to. The runtime knows
/// each of them by name; an object's method binding is a value holding one of
/// these tags.
#[derive(Clone, Copy, PartialEq, Eq, Structural, Debug)]
pub enum NativeMethod {
    /// The Symbol constructor's call behaviour: allocate a fresh symbol record.
    CallSymbol,
    /// `Symbol.prototype.toString`: format the receiver's description.
    SymbolToString,
}

/// Mathematical model of a `Value`. A string payload appears as its character
/// sequence; a Symbol or Object payload appears as the arena index of its
/// referent, so two references denote the same object exactly when their
/// models are equal.
pub enum AbsValue {
    Undefined,
    Null,
    Boolean(bool),
    Number(i32),
    Str(Seq<char>),
    SymbolRef(nat),
    ObjectRef(nat),
    Native(NativeMethod),
}

/// A runtime value. Immutable at the tag level; the referent of a `Symbol` or
/// `Object` variant lives in the arena and is mutable there. The numbers this
/// substrate stores are 32-bit signed integers — the shape of the Symbol
/// uniqueness token; richer numerics belong to the wider runtime.
#[derive(Debug)]
pub enum Value {
    Undefined,
    Null,
    Boolean(bool),
    Number(i32),
    Str(String),
    Symbol(usize),
    Object(usize),
    NativeFunction(NativeMethod),
}

impl View for Value {
    type V = AbsValue;

    open spec fn view(&self) -> AbsValue {
        match self {
            Value::Undefined => AbsValue::Undefined,
            Value::Null => AbsValue::Null,
            Value::Boolean(b) => AbsValue::Boolean(*b),
            Value::Number(n) => AbsValue::Number(*n),
            Value::Str(s) => AbsValue::Str(s@),
            Value::Symbol(i) => AbsValue::SymbolRef(*i as nat),
            Value::Object(i) => AbsValue::ObjectRef(*i as nat),
            Value::NativeFunction(m) => AbsValue::Native(*m),
        }
    }
}

/// A value is valid for an arena of `n` objects when any object reference it
/// carries points below `n`. The arena only ever grows, so validity is stable.
pub open spec fn abs_value_valid(v: AbsValue, n: nat) -> bool {
    match v {
        AbsValue::SymbolRef(i) => i < n,
        AbsValue::ObjectRef(i) => i < n,
        _ => true,
    }
}

impl Value {
    /// Structural copy; for reference variants the copy denotes the same
    /// referent, as reference semantics require.
    pub fn duplicate(&self) -> (r: Value)
        ensures
            r@ == self@,
    {
        match self {
            Value::Undefined => Value::Undefined,
            Value::Null => Value::Null,
            Value::Boolean(b) => Value::Boolean(*b),
            Value::Number(n) => Value::Number(*n),
            Value::Str(s) => Value::Str(s.clone()),
            Value::Symbol(i) => Value::Symbol(*i),
            Value::Object(i) => Value::Object(*i),
            Value::NativeFunction(m) => Value::NativeFunction(*m),
        }
    }
}

/// The character of a single decimal digit.
pub open spec fn digit_char(d: int) -> char {
    if d == 0 {
        '0'
    } else if d == 1 {
        '1'
    } else if d == 2 {
        '2'
    } else if d == 3 {
        '3'
    } else if d == 4 {
        '4'
    } else if d == 5 {
        '5'
    } else if d == 6 {
        '6'
    } else if d == 7 {
        '7'
    } else if d == 8 {
        '8'
    } else {
        '9'
    }
}

/// Decimal digit sequence of a non-negative integer, most significant first.
pub open spec fn dec_digits(n: nat) -> Seq<char>
    decreases n,
{
    if n < 10 {
        seq![digit_char(n as int)]
    } else {
        dec_digits(n / 10).push(digit_char((n % 10) as int))
    }
}

/// Decimal rendering of an integer, with a leading minus sign when negative.
pub open spec fn dec_str(n: int) -> Seq<char> {
    if n < 0 {
        seq!['-'] + dec_digits((-n) as nat)
    } else {
        dec_digits(n as nat)
    }
}

/// The string form a value coerces to. Total: every value, however exotic,
/// has one. References coerce to a fixed placeholder text, since a reference
/// reveals nothing of its referent without the arena.
pub open spec fn display_of(v: AbsValue) -> Seq<char> {
    match v {
        AbsValue::Undefined => "undefined"@,
        AbsValue::Null => "null"@,
        AbsValue::Boolean(b) => if b {
            "true"@
        } else {
            "false"@
        },
        AbsValue::Number(n) => dec_str(n as int),
        AbsValue::Str(s) => s,
        AbsValue::SymbolRef(_) => "Symbol"@,
        AbsValue::ObjectRef(_) => "[object]"@,
        AbsValue::Native(_) => "function"@,
    }
}

/// The one-character string of a decimal digit.
fn digit_str(d: u32) -> (r: &'static str)
    requires
        d < 10,
    ensures
        r@ == seq![digit_char(d as int)],
{
    proof {
        reveal_strlit("0");
        reveal_strlit("1");
        reveal_strlit("2");
        reveal_strlit("3");
        reveal_strlit("4");
        reveal_strlit("5");
        reveal_strlit("6");
        reveal_strlit("7");
        reveal_strlit("8");
        reveal_strlit("9");
    }
    let r: &'static str = match d {
        0 => "0",
        1 => "1",
        2 => "2",
        3 => "3",
        4 => "4",
        5 => "5",
        6 => "6",
        7 => "7",
        8 => "8",
        _ => "9",
    };
    proof {
        assert(r@ =~= seq![digit_char(d as int)]);
    }
    r
}

/// Appends the decimal digits of `m` to `out`.
fn push_decimal_digits(out: &mut String, m: u32)
    ensures
        final(out)@ == old(out)@ + dec_digits(m as nat),
    decreases m,
{
    if m >= 10 {
        push_decimal_digits(out, m / 10);
        out.append(digit_str(m % 10));
        proof {
            assert(final(out)@ =~= old(out)@ + dec_digits(m as nat));
        }
    } else {
        out.append(digit_str(m));
        proof {
            assert(final(out)@ =~= old(out)@ + dec_digits(m as nat));
        }
    }
}

/// Coerces a value to its string form, as the Symbol constructor's
/// description argument requires. Never fails.
pub fn to_display_string(v: &Value) -> (r: String)
    ensures
        r@ == display_of(v@),
{
    match v {
        Value::Undefined => String::from_str("undefined"),
        Value::Null => String::from_str("null"),
        Value::Boolean(b) => if *b {
            String::from_str("true")
        } else {
            String::from_str("false")
        },
        Value::Number(n) => {
            let mut s = String::new();
            if *n < 0 {
                let m: u32 = (-(*n as i64)) as u32;
                s.append("-");
                push_decimal_digits(&mut s, m);
                proof {
                    reveal_strlit("-");
                    assert("-"@ =~= seq!['-']);
                    assert(s@ =~= dec_str(*n as int));
                }
            } else {
                push_decimal_digits(&mut s, *n as u32);
                proof {
                    assert(s@ =~= dec_str(*n as int));
                }
            }
            s
        },
        Value::Str(st) => st.clone(),
        Value::Symbol(_) => String::from_str("Symbol"),
        Value::Object(_) => String::from_str("[object]"),
        Value::NativeFunction(_) => String::from_str("function"),
    }
}

} // verus!
