//! A value that JSON writes either as one object or as a list of objects.

use vstd::prelude::*;

verus! {

/// One object of type `S` or many objects of type `T`.
#[derive(Debug, PartialEq)]
pub enum OneOrMany<S, T> {
    One(S),
    Many(Vec<T>),
}

/// One object of type `T` or many objects of type `T`.
pub type OneTypeOrMany<T> = OneOrMany<T, T>;

impl<T> OneTypeOrMany<T> {
    /// The items, one or many, as one sequence.
    pub open spec fn items(self) -> Seq<T> {
        match self {
            OneOrMany::One(v) => seq![v],
            OneOrMany::Many(vs) => vs@,
        }
    }

    /// The items as a list of borrows, in order.
    pub fn iter(&self) -> (r: Vec<&T>)
        ensures
            r@.len() == self.items().len(),
            forall|i: int| 0 <= i < r@.len() ==> *(#[trigger] r@[i]) == self.items()[i],
    {
        match self {
            OneOrMany::One(v) => {
                let mut r: Vec<&T> = Vec::new();
                r.push(v);
                r
            },
            OneOrMany::Many(vs) => {
                let mut r: Vec<&T> = Vec::new();
                let mut i: usize = 0;
                while i < vs.len()
                    invariant
                        i <= vs@.len(),
                        r@.len() == i,
                        forall|j: int| 0 <= j < i ==> *(#[trigger] r@[j]) == vs@[j],
                    decreases vs@.len() - i,
                {
                    r.push(&vs[i]);
                    i = i + 1;
                }
                r
            },
        }
    }

    /// The items, one or many, moved into a list.
    pub fn into_iter(self) -> (r: Vec<T>)
        ensures
            r@ == self.items(),
    {
        match self {
            OneOrMany::One(v) => {
                let mut r: Vec<T> = Vec::new();
                r.push(v);
                proof {
                    assert(r@ =~= seq![v]);
                }
                r
            },
            OneOrMany::Many(vs) => vs,
        }
    }
}

} // verus!
