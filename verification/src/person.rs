//! Demo data type used only by tests of the surrounding code; it carries no
//! connection-handling logic of its own.
use vstd::prelude::*;

verus! {

pub struct Person {
    age: u8,
    name: String,
}

impl Person {
    /// The age a fresh demo person carries.
    pub closed spec fn age_spec(&self) -> u8 {
        self.age
    }

    /// The name a fresh demo person carries.
    pub closed spec fn name_spec(&self) -> Seq<char> {
        self.name@
    }

    /// Builds the stock demo person.
    pub fn default() -> (r: Self)
        ensures
            r.age_spec() == 18u8,
            r.name_spec() == "John Doe"@,
    {
        Person { age: 18, name: "John Doe".to_owned() }
    }
}

} // verus!
