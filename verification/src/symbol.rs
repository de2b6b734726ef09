use vstd::prelude::*;

verus! {

/// A variable's identity: an opaque name. Two variables denote the same
/// variable exactly when their names are equal, character for character.
pub struct Symbol {
    pub name: String,
}

impl View for Symbol {
    type V = Seq<char>;

    open spec fn view(&self) -> Seq<char> {
        self.name@
    }
}

impl Symbol {
    pub fn new(name: String) -> (s: Symbol)
        ensures
            s@ == name@,
    {
        Symbol { name }
    }
}

impl Clone for Symbol {
    fn clone(&self) -> (r: Self)
        ensures
            r@ == self@,
    {
        Symbol { name: self.name.clone() }
    }
}

impl PartialEq for Symbol {
    fn eq(&self, other: &Symbol) -> (r: bool) {
        self.name == other.name
    }
}

impl vstd::std_specs::cmp::PartialEqSpecImpl for Symbol {
    open spec fn obeys_eq_spec() -> bool {
        true
    }

    open spec fn eq_spec(&self, other: &Symbol) -> bool {
        self.name@ == other.name@
    }
}

} // verus!
