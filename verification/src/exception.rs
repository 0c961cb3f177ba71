use vstd::prelude::*;

verus! {

/// A failure reported by the foreign side of the boundary: the asynchronous
/// operation completed abnormally, and this value carries the foreign
/// description of what went wrong.
pub struct Exception {
    what: String,
}

impl View for Exception {
    type V = Seq<char>;

    closed spec fn view(&self) -> Seq<char> {
        self.what@
    }
}

impl Exception {
    /// Wraps a foreign-originated failure description.
    pub fn new(what: String) -> (e: Exception)
        ensures
            e@ == what@,
    {
        Exception { what }
    }

    /// The description of the failure, as the foreign side reported it.
    pub fn what(&self) -> (w: &String)
        ensures
            w@ == self@,
    {
        &self.what
    }
}

} // verus!
