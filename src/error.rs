use vstd::prelude::*;

verus! {

/// An error carrying a human-readable description.
#[derive(Debug)]
pub struct E {
    description: String,
}

impl View for E {
    type V = Seq<char>;

    closed spec fn view(&self) -> Seq<char> {
        self.description@
    }
}

impl E {
    pub fn new(description: String) -> (r: Self)
        ensures
            r@ == description@,
    {
        E { description }
    }

    pub fn description(&self) -> (r: &str)
        ensures
            r@ == self@,
    {
        self.description.as_str()
    }
}

} // verus!
