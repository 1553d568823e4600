//! Identities: who administers a score and who asks to refine it.

use vstd::prelude::*;

verus! {

/// The identity of an account, held in its canonical text form.
///
/// The library never looks inside the text: two addresses name the same
/// account exactly when their texts are equal.
#[derive(Debug)]
pub struct Address {
    strkey: String,
}

impl View for Address {
    type V = Seq<char>;

    closed spec fn view(&self) -> Seq<char> {
        self.strkey@
    }
}

impl Address {
    /// Wraps the canonical text of an address.
    pub fn new(strkey: &str) -> (r: Address)
        ensures
            r@ == strkey@,
    {
        Address { strkey: strkey.to_owned() }
    }

    /// The canonical text of the address.
    pub fn as_str(&self) -> (r: &str)
        ensures
            r@ == self@,
    {
        self.strkey.as_str()
    }
}

impl Clone for Address {
    fn clone(&self) -> (r: Address)
        ensures
            r@ == self@,
    {
        Address { strkey: self.strkey.clone() }
    }
}

impl PartialEq for Address {
    fn eq(&self, other: &Address) -> (r: bool) {
        self.strkey == other.strkey
    }
}

impl Eq for Address {

}

impl vstd::std_specs::cmp::PartialEqSpecImpl for Address {
    open spec fn obeys_eq_spec() -> bool {
        true
    }

    open spec fn eq_spec(&self, other: &Address) -> bool {
        self@ == other@
    }
}

} // verus!
