//! A struct that keeps its contents to itself until asked.

use vstd::prelude::*;

verus! {

/// Holds one hidden string, revealed on demand.
#[derive(Debug, Clone)]
pub struct MyStruct {
    thing: String,
}

impl MyStruct {
    /// The hidden contents.
    pub closed spec fn contents(&self) -> Seq<char> {
        self.thing@
    }

    pub fn new() -> (r: MyStruct)
        ensures
            r.contents() == "surprise!"@,
    {
        MyStruct { thing: String::from_str("surprise!") }
    }

    /// A struct with chosen contents, standing in for `new` where a test
    /// wants to observe exactly what was put in.
    pub fn with_thing(thing: String) -> (r: MyStruct)
        ensures
            r.contents() == thing@,
    {
        MyStruct { thing }
    }

    pub fn reveal_thing(&self) -> (r: String)
        ensures
            r@ == self.contents(),
    {
        self.thing.clone()
    }
}

} // verus!
