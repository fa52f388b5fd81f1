//! What a component declares of itself: its name and the components that it
//! requires.

use vstd::prelude::*;

verus! {

/// A declaration as a mathematical value: a name and the declarations of the
/// direct prerequisites, in declared order.
pub struct DependencyView {
    pub name: Seq<char>,
    pub prerequisites: Seq<DependencyView>,
}

/// The declaration of one component. Two declarations speak of the same
/// component exactly when their names are equal.
#[derive(Debug)]
pub struct Dependency {
    pub name: String,
    pub prerequisites: Vec<Dependency>,
}

/// The mathematical value of one declaration.
pub open spec fn declaration(d: Dependency) -> DependencyView
    decreases d, 0nat,
{
    DependencyView {
        name: d.name@,
        prerequisites: declarations_upto(d.prerequisites@, d.prerequisites@.len()),
    }
}

/// The values of the first `n` declarations of `ds`.
pub open spec fn declarations_upto(ds: Seq<Dependency>, n: nat) -> Seq<DependencyView>
    decreases ds, n,
{
    if n == 0 || n > ds.len() {
        Seq::empty()
    } else {
        declarations_upto(ds, (n - 1) as nat).push(declaration(ds[n - 1]))
    }
}

/// The values of a list of declarations, in order.
pub open spec fn declarations(ds: Seq<Dependency>) -> Seq<DependencyView> {
    Seq::new(ds.len(), |i: int| ds[i]@)
}

/// The values of the first `n` declarations are `n` values, the value of
/// each declaration at its place.
pub proof fn lemma_declarations_upto(ds: Seq<Dependency>, n: nat)
    requires
        n <= ds.len(),
    ensures
        declarations_upto(ds, n).len() == n,
        forall|i: int| 0 <= i < n ==> declarations_upto(ds, n)[i] == declaration(ds[i]),
    decreases n,
{
    if n > 0 {
        lemma_declarations_upto(ds, (n - 1) as nat);
    }
}

impl View for Dependency {
    type V = DependencyView;

    open spec fn view(&self) -> DependencyView {
        declaration(*self)
    }
}

impl Dependency {
    /// A declaration with the given name and direct prerequisites.
    pub fn new(name: &str, prerequisites: Vec<Dependency>) -> (r: Dependency)
        ensures
            r@.name == name@,
            r@.prerequisites == declarations(prerequisites@),
    {
        let r = Dependency { name: name.to_owned(), prerequisites };
        proof {
            lemma_declarations_upto(r.prerequisites@, r.prerequisites@.len());
            assert(r@.prerequisites =~= declarations(r.prerequisites@));
        }
        r
    }

    /// The component's name.
    pub fn name(&self) -> (r: &str)
        ensures
            r@ == self@.name,
    {
        self.name.as_str()
    }

    /// The declarations of the direct prerequisites, in declared order.
    pub fn prerequisites(&self) -> (r: &Vec<Dependency>)
        ensures
            declarations(r@) == self@.prerequisites,
    {
        proof {
            lemma_declarations_upto(self.prerequisites@, self.prerequisites@.len());
            assert(self@.prerequisites =~= declarations(self.prerequisites@));
        }
        &self.prerequisites
    }
}

} // verus!
