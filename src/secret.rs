use vstd::prelude::*;

verus! {

/// A string that is never shown by accident: it has no `Debug` or `Display`,
/// and only `expose_secret` hands out its value.
pub struct Secret {
    value: String,
}

impl View for Secret {
    type V = Seq<char>;

    closed spec fn view(&self) -> Seq<char> {
        self.value@
    }
}

impl Secret {
    pub fn new(value: String) -> (r: Secret)
        ensures
            r@ == value@,
    {
        Secret { value }
    }

    /// The value itself; to be used where it is sent, never where it is
    /// logged.
    pub fn expose_secret(&self) -> (r: &str)
        ensures
            r@ == self@,
    {
        self.value.as_str()
    }
}

} // verus!
