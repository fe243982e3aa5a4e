//! The generated block model: a named, parameterized, ordered sequence
//! of promises.

use vstd::prelude::*;

use crate::promise::{Promise, PromiseView};

verus! {

/// A named, parameterized block of promises.
#[derive(Debug, PartialEq, Eq)]
pub struct Bundle {
    pub name: String,
    pub parameters: Vec<String>,
    pub promises: Vec<Promise>,
}

/// Mathematical model of a [`Bundle`].
#[verifier::ext_equal]
pub struct BundleView {
    pub name: Seq<char>,
    pub parameters: Seq<Seq<char>>,
    pub promises: Seq<PromiseView>,
}

impl View for Bundle {
    type V = BundleView;

    open spec fn view(&self) -> BundleView {
        BundleView {
            name: self.name@,
            parameters: self.parameters.deep_view(),
            promises: self.promises.deep_view(),
        }
    }
}

impl Bundle {
    /// Start an agent bundle with the given name, with no parameters
    /// and no promises yet.
    pub fn agent(name: String) -> (r: Bundle)
        ensures
            r@.name == name@,
            r@.parameters == Seq::<Seq<char>>::empty(),
            r@.promises == Seq::<PromiseView>::empty(),
    {
        let r = Bundle { name: name, parameters: Vec::new(), promises: Vec::new() };
        proof {
            assert(r.parameters.deep_view() =~= Seq::<Seq<char>>::empty());
            assert(r.promises.deep_view() =~= Seq::<PromiseView>::empty());
        }
        r
    }

    /// The same bundle with its parameter-name list set.
    pub fn parameters(self, parameters: Vec<String>) -> (r: Bundle)
        ensures
            r@.name == self@.name,
            r@.parameters == parameters.deep_view(),
            r@.promises == self@.promises,
    {
        Bundle { parameters: parameters, ..self }
    }

    /// The same bundle with its promise sequence set.
    pub fn promise_group(self, promises: Vec<Promise>) -> (r: Bundle)
        ensures
            r@.name == self@.name,
            r@.parameters == self@.parameters,
            r@.promises == promises.deep_view(),
    {
        Bundle { promises: promises, ..self }
    }
}

} // verus!
