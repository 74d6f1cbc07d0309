use vstd::prelude::*;

verus! {

/// Anything that can stand where an optional string is wanted: a string
/// itself, the unit value for "none", or an `Option` taken as it is.
pub trait StringOption {
    /// The optional string this value stands for.
    spec fn spec_get(&self) -> Option<Seq<char>>;

    /// Turn the value into the optional string it stands for.
    fn get(self) -> (r: Option<String>)
        ensures
            r.deep_view() == self.spec_get(),
    ;
}

impl StringOption for &str {
    open spec fn spec_get(&self) -> Option<Seq<char>> {
        Some(self@)
    }

    fn get(self) -> (r: Option<String>) {
        Some(self.to_owned())
    }
}

impl StringOption for String {
    open spec fn spec_get(&self) -> Option<Seq<char>> {
        Some(self@)
    }

    fn get(self) -> (r: Option<String>) {
        Some(self)
    }
}

impl StringOption for () {
    open spec fn spec_get(&self) -> Option<Seq<char>> {
        None
    }

    fn get(self) -> (r: Option<String>) {
        None
    }
}

impl StringOption for Option<String> {
    open spec fn spec_get(&self) -> Option<Seq<char>> {
        self.deep_view()
    }

    fn get(self) -> (r: Option<String>) {
        self
    }
}

} // verus!
