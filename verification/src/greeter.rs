//! The greeting responder: the request/response computation of the served
//! RPC, free of transport concerns. The serving routine around it only
//! moves the request's name in and the reply message out.

use vstd::prelude::*;
use vstd::string::StringExecFns;

verus! {

/// The greeting responder. It holds no state.
#[derive(Default)]
pub struct MyGreeter {}

impl MyGreeter {
    /// A fresh responder.
    pub fn new() -> (g: MyGreeter) {
        MyGreeter {  }
    }

    /// The reply message for a hello request carrying `name`.
    pub fn say_hello(&self, name: &str) -> (r: String)
        ensures
            r@ == "Hello "@ + name@ + "!"@,
    {
        greeting(name)
    }
}

/// The greeting for `name`: the text `Hello `, the name, then `!`.
pub fn greeting(name: &str) -> (r: String)
    ensures
        r@ == "Hello "@ + name@ + "!"@,
{
    let mut r = String::from_str("Hello ");
    r.append(name);
    r.append("!");
    r
}

} // verus!
