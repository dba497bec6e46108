//! A struct built around `MyStruct`, passing its revelation through.

use vstd::prelude::*;

use crate::my_struct::MyStruct;

verus! {

/// Wraps a `MyStruct` and reveals everything it holds.
#[derive(Debug, Clone)]
pub struct ThingThatUsesMyStruct {
    pub my_struct: MyStruct,
}

impl ThingThatUsesMyStruct {
    pub fn new(my_struct: MyStruct) -> (r: ThingThatUsesMyStruct)
        ensures
            r.my_struct == my_struct,
    {
        ThingThatUsesMyStruct { my_struct }
    }

    pub fn reveal_all(&self) -> (r: String)
        ensures
            r@ == self.my_struct.contents(),
    {
        self.my_struct.reveal_thing()
    }
}

} // verus!
