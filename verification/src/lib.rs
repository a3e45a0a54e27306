//! The object-model substrate of a small dynamic-language runtime, together
//! with its Symbol builtin: a tagged `Value` type, heap objects carrying both
//! ordinary properties and hidden internal slots, prototype-chain lookup, and
//! the paired constructor/prototype wiring that builtins are made of.
use vstd::prelude::*;

pub mod heap;
pub mod object;
pub mod symbol;
pub mod value;

verus! {

/// The result type of a native builtin call: either a produced value or a
/// thrown value. No operation of this crate ever produces the error arm.
pub type ResultValue = Result<crate::value::Value, crate::value::Value>;

} // verus!
