//! Special variables of the target language, by name.
use vstd::prelude::*;
use core::marker::PhantomData;

verus! {

/// A special variable of the target language holding a `T`.
pub struct Var<T> {
    name: &'static str,
    marker: PhantomData<T>,
}

impl<T> Var<T> {
    /// The variable's name.
    pub closed spec fn spec_name(&self) -> Seq<char> {
        self.name@
    }

    /// The variable named `name`.
    pub fn new(name: &'static str) -> (r: Var<T>)
        ensures
            r.spec_name() == name@,
    {
        Var { name, marker: PhantomData }
    }

    /// The variable's name.
    pub fn name(&self) -> (r: &'static str)
        ensures
            r@ == self.spec_name(),
    {
        self.name
    }
}

impl<T> Clone for Var<T> {
    fn clone(&self) -> (r: Self)
        ensures
            r.spec_name() == self.spec_name(),
    {
        Var { name: self.name, marker: PhantomData }
    }
}

impl<T> Copy for Var<T> {}

/// `$preview`: whether the program is rendered as a preview.
pub fn preview() -> (r: Var<bool>)
    ensures
        r.spec_name() == "$preview"@,
{
    Var::new("$preview")
}

} // verus!
