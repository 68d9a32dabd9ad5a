//! Copies that are known to hold what their source holds.
use std::collections::VecDeque;
use vstd::prelude::*;

verus! {

/// A type whose values can be copied without change of content.
pub trait Replica: DeepView + Sized {
    /// A copy with the same content.
    fn replica(&self) -> (copy: Self)
        ensures
            copy.deep_view() == self.deep_view(),
    ;
}

impl Replica for String {
    fn replica(&self) -> (copy: Self) {
        self.clone()
    }
}

impl Replica for () {
    fn replica(&self) -> (copy: Self) {
        ()
    }
}

impl<T: Replica> Replica for Option<T> {
    fn replica(&self) -> (copy: Self) {
        match self {
            Some(value) => Some(value.replica()),
            None => None,
        }
    }
}

impl<T: Replica> Replica for Vec<T> {
    fn replica(&self) -> (copy: Self) {
        let mut copy: Vec<T> = Vec::new();
        let mut i: usize = 0;
        while i < self.len()
            invariant
                i <= self.len(),
                copy.len() == i,
                forall|j: int| 0 <= j < i ==> copy@[j].deep_view() == self@[j].deep_view(),
            decreases self.len() - i,
        {
            copy.push(self[i].replica());
            i += 1;
        }
        assert(copy.deep_view() =~= self.deep_view());
        copy
    }
}

impl Replica for u8 {
    fn replica(&self) -> (copy: Self) {
        *self
    }
}

impl Replica for VecDeque<u64> {
    fn replica(&self) -> (copy: Self) {
        let mut copy: VecDeque<u64> = VecDeque::new();
        let mut i: usize = 0;
        while i < self.len()
            invariant
                i <= self.len(),
                copy.len() == i,
                forall|j: int| 0 <= j < i ==> copy@[j] == self@[j],
            decreases self.len() - i,
        {
            copy.push_back(self[i]);
            i += 1;
        }
        assert(copy.deep_view() =~= self.deep_view());
        copy
    }
}

/// The same bytes once more.
pub fn copy_bytes(bytes: &Vec<u8>) -> (copy: Vec<u8>)
    ensures
        copy@ == bytes@,
{
    let copy = bytes.replica();
    assert(copy@ =~= copy.deep_view() && bytes@ =~= bytes.deep_view());
    copy
}

/// Pushes `item`, in terms of what the items hold.
pub fn push_onto<T: DeepView>(items: &mut Vec<T>, item: T)
    ensures
        final(items).deep_view() == old(items).deep_view().push(item.deep_view()),
{
    items.push(item);
    assert(items.deep_view() =~= old(items).deep_view().push(item.deep_view()));
}

} // verus!
