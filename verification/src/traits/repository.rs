use vstd::prelude::*;

verus! {

/// An ordered collection that items are added to, one after another.
pub trait Repository<T>: Sized {
    /// The items of the repository, in the order in which they were added.
    spec fn items(&self) -> Seq<T>;

    /// A repository without items.
    fn new() -> (repository: Self)
        ensures
            repository.items() == Seq::<T>::empty(),
    ;

    /// Adds `item` behind the items that are there.
    fn add(&mut self, item: T)
        ensures
            final(self).items() == old(self).items().push(item),
    ;
}

} // verus!
