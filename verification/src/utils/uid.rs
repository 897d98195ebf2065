use vstd::prelude::*;

verus! {

/// The identifier a host announces itself with.
#[derive(Hash, Debug)]
pub struct Uid(String);

impl View for Uid {
    type V = Seq<char>;

    closed spec fn view(&self) -> Seq<char> {
        self.0@
    }
}

impl Uid {
    /// The text of the identifier.
    pub fn as_string(&self) -> (r: &String)
        ensures
            r@ == self@,
    {
        &self.0
    }
}

impl From<String> for Uid {
    fn from(s: String) -> (r: Self)
        ensures
            r@ == s@,
    {
        Uid(s)
    }
}

impl vstd::std_specs::convert::FromSpecImpl<String> for Uid {
    open spec fn obeys_from_spec() -> bool {
        true
    }

    closed spec fn from_spec(s: String) -> Uid {
        Uid(s)
    }
}

/// An identifier made from a string has that string's text.
pub proof fn lemma_uid_from_string(s: String)
    ensures
        <Uid as vstd::std_specs::convert::FromSpec<String>>::from_spec(s)@ == s@,
{
}

impl Clone for Uid {
    fn clone(&self) -> (r: Self)
        ensures
            r@ == self@,
    {
        Uid(self.0.clone())
    }
}

impl PartialEq for Uid {
    fn eq(&self, other: &Self) -> (r: bool) {
        self.0 == other.0
    }
}

impl Eq for Uid {

}

impl vstd::std_specs::cmp::PartialEqSpecImpl for Uid {
    open spec fn obeys_eq_spec() -> bool {
        true
    }

    open spec fn eq_spec(&self, other: &Self) -> bool {
        self@ == other@
    }
}

} // verus!
