use vstd::prelude::*;

verus! {

/// A growable, insertion-ordered sequence of owned values.
///
/// Exclusive and shared access is tracked by the borrow checker: `push` and
/// `add_to_each` take `&mut self`, so neither can run while a view obtained
/// through `get` or `index` is still alive.
pub struct OwnedSequence<T> {
    items: Vec<T>,
}

impl<T> View for OwnedSequence<T> {
    type V = Seq<T>;

    closed spec fn view(&self) -> Seq<T> {
        self.items@
    }
}

/// The element at `i`, or nothing when `i` is past the end.
pub open spec fn lookup<T>(s: Seq<T>, i: int) -> Option<T> {
    if 0 <= i < s.len() {
        Some(s[i])
    } else {
        None
    }
}

/// Every element of `s` shifted by `k`.
pub open spec fn shifted(s: Seq<i64>, k: int) -> Seq<int> {
    Seq::new(s.len(), |i: int| s[i] + k)
}

impl<T> OwnedSequence<T> {
    pub fn new() -> (r: Self)
        ensures
            r@ == Seq::<T>::empty(),
    {
        OwnedSequence { items: Vec::new() }
    }

    /// Takes ownership of `items`, keeping their order.
    pub fn from_vec(items: Vec<T>) -> (r: Self)
        ensures
            r@ == items@,
    {
        OwnedSequence { items }
    }

    pub fn len(&self) -> (r: usize)
        ensures
            r == self@.len(),
    {
        self.items.len()
    }

    /// Appends `value` at the end.
    pub fn push(&mut self, value: T)
        ensures
            final(self)@ == old(self)@.push(value),
    {
        self.items.push(value);
    }

    /// A shared view of the element at `index`, or `None` when it is out of
    /// bounds.
    pub fn get(&self, index: usize) -> (r: Option<&T>)
        ensures
            match r {
                Some(v) => lookup(self@, index as int) == Some(*v),
                None => lookup(self@, index as int) == None::<T>,
            },
    {
        if index < self.items.len() {
            Some(&self.items[index])
        } else {
            None
        }
    }

    /// A shared view of the element at `index`, which the caller has checked
    /// to be in bounds.
    pub fn index(&self, index: usize) -> (r: &T)
        requires
            index < self@.len(),
        ensures
            *r == self@[index as int],
    {
        &self.items[index]
    }

    /// Hands the elements back to the caller, in order.
    pub fn into_vec(self) -> (r: Vec<T>)
        ensures
            r@ == self@,
    {
        self.items
    }
}

impl OwnedSequence<i64> {
    /// Adds `k` to every element in place.
    pub fn add_to_each(&mut self, k: i64)
        requires
            forall|i: int|
                0 <= i < old(self)@.len() ==> i64::MIN <= #[trigger] old(self)@[i] + k
                    <= i64::MAX,
        ensures
            final(self)@.len() == old(self)@.len(),
            forall|i: int|
                0 <= i < final(self)@.len() ==> #[trigger] final(self)@[i] as int == shifted(
                    old(self)@,
                    k as int,
                )[i],
    {
        let n = self.items.len();
        let mut i: usize = 0;
        while i < n
            invariant
                n == self.items@.len(),
                n == old(self)@.len(),
                i <= n,
                forall|j: int| 0 <= j < i ==> #[trigger] self.items@[j] == old(self)@[j] + k,
                forall|j: int| i <= j < n ==> #[trigger] self.items@[j] == old(self)@[j],
                forall|j: int|
                    0 <= j < n ==> i64::MIN <= #[trigger] old(self)@[j] + k <= i64::MAX,
            decreases n - i,
        {
            let x = self.items[i];
            self.items.set(i, x + k);
            i = i + 1;
        }
    }
}

/// Defensive and asserted access agree: inside the bounds `get` yields the
/// element that `index` yields, and past the end it yields nothing.
pub proof fn lemma_get_agrees_with_index<T>(s: OwnedSequence<T>, i: int)
    ensures
        0 <= i < s@.len() ==> lookup(s@, i) == Some(s@[i]),
        i >= s@.len() ==> lookup(s@, i) is None,
{
}

} // verus!
