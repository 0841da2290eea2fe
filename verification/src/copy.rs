//! Copies of values that own heap data, stated over their views.
use vstd::prelude::*;

verus! {

/// A value that can be copied in full; the copy has the same view.
pub trait DeepCopy: View + Sized {
    fn deep_copy(&self) -> (copy: Self)
        ensures
            copy@ == self@,
    ;
}

/// The views of the items of a sequence, in order.
pub open spec fn views_of<T: View>(items: Seq<T>) -> Seq<T::V> {
    items.map_values(|item: T| item@)
}

/// Copies every item of a vector.
pub fn copy_all<T: DeepCopy>(items: &Vec<T>) -> (copies: Vec<T>)
    ensures
        views_of(copies@) == views_of(items@),
{
    let mut copies: Vec<T> = Vec::new();
    let mut i: usize = 0;
    while i < items.len()
        invariant
            i <= items.len(),
            copies.len() == i,
            forall|j: int| 0 <= j < i ==> (#[trigger] copies@[j])@ == items@[j]@,
        decreases items.len() - i,
    {
        copies.push(items[i].deep_copy());
        i = i + 1;
    }
    assert(views_of(copies@) =~= views_of(items@));
    copies
}

impl DeepCopy for String {
    fn deep_copy(&self) -> (copy: String) {
        self.clone()
    }
}

} // verus!
