//! Plain functions, strings, and one boxed record.
use crate::aggregate::fits_i32;
use vstd::prelude::*;
use vstd::string::*;

verus! {

/// A record with a single text field, handed to the caller in a box.
#[derive(Debug, PartialEq, Eq, Clone)]
pub struct Value {
    pub value: String,
}

impl View for Value {
    type V = Seq<char>;

    open spec fn view(&self) -> Seq<char> {
        self.value@
    }
}

/// The sum of two numbers.
pub fn cc_add(a: i32, b: i32) -> (sum: i32)
    requires
        fits_i32(a + b),
    ensures
        sum == a + b,
{
    a + b
}

/// The greeting, as a string that the caller owns.
pub fn cc_hello_str() -> (greeting: String)
    ensures
        greeting@ == "Hello Rust FFI"@,
{
    String::from_str("Hello Rust FFI")
}

/// A welcome for `name`: the word `Welcome`, a space, the name, an exclamation mark.
pub fn cc_welcome_str(name: &str) -> (welcome: String)
    ensures
        welcome@ == "Welcome "@ + name@ + "!"@,
{
    String::from_str("Welcome ").concat(name).concat("!")
}

/// Boxes a new record around `value`.
pub fn cc_create_box_ptr(value: String) -> (ptr: Box<Value>)
    ensures
        ptr@ == value@,
{
    Box::new(Value { value })
}

/// A copy of the text in a boxed record.
pub fn cc_get_value_from_box_ptr(ptr: &Box<Value>) -> (value: String)
    ensures
        value@ == ptr@,
{
    ptr.value.clone()
}

} // verus!
