use vstd::prelude::*;

verus! {

/// A fixed-capacity sequence held in place: at most `N` items, no allocation.
#[derive(Debug)]
pub struct Buffer<T, const N: usize> {
    items: [T; N],
    len: usize,
}

impl<T, const N: usize> View for Buffer<T, N> {
    type V = Seq<T>;

    closed spec fn view(&self) -> Seq<T> {
        self.items@.subrange(0, self.len as int)
    }
}

impl<T, const N: usize> Buffer<T, N> {
    #[verifier::type_invariant]
    spec fn inv(self) -> bool {
        self.len <= N
    }
}

impl<T: Copy, const N: usize> Buffer<T, N> {
    /// An empty buffer; `fill` stands in the unused slots.
    pub fn new(fill: T) -> (r: Self)
        ensures
            r@ == Seq::<T>::empty(),
    {
        let r = Buffer { items: [fill; N], len: 0 };
        assert(r@ =~= Seq::<T>::empty());
        r
    }

    pub fn len(&self) -> (r: usize)
        ensures
            r == self@.len(),
            r <= N,
    {
        proof {
            use_type_invariant(self);
        }
        self.len
    }

    pub fn is_empty(&self) -> (r: bool)
        ensures
            r == (self@.len() == 0),
    {
        proof {
            use_type_invariant(self);
        }
        self.len == 0
    }

    /// The item at `i`.
    pub fn get(&self, i: usize) -> (r: T)
        requires
            i < self@.len(),
        ensures
            r == self@[i as int],
    {
        proof {
            use_type_invariant(self);
        }
        self.items[i]
    }

    /// Drops every item.
    pub fn clear(&mut self)
        ensures
            final(self)@ == Seq::<T>::empty(),
    {
        self.len = 0;
        assert(self@ =~= Seq::<T>::empty());
    }

    /// Appends `x`; the buffer must have room for it.
    pub fn push(&mut self, x: T)
        requires
            old(self)@.len() < N,
        ensures
            final(self)@ == old(self)@.push(x),
    {
        proof {
            use_type_invariant(&*self);
        }
        let ghost before = self@;
        self.items[self.len] = x;
        self.len = self.len + 1;
        assert(self@ =~= before.push(x));
    }

    /// Removes and returns the first item, moving the others down.
    pub fn pop_front(&mut self) -> (r: T)
        requires
            old(self)@.len() > 0,
        ensures
            r == old(self)@[0],
            final(self)@ == old(self)@.drop_first(),
    {
        proof {
            use_type_invariant(&*self);
        }
        let ghost before = self@;
        let r = self.items[0];
        let n = self.len;
        let mut i: usize = 1;
        while i < n
            invariant
                1 <= i <= n,
                n == self.len,
                n <= N,
                before == old(self)@,
                self.items@.len() == N,
                forall|k: int| 0 <= k < i - 1 ==> #[trigger] self.items@[k] == before[k + 1],
                forall|k: int| i <= k < n ==> #[trigger] self.items@[k] == before[k],
            decreases n - i,
        {
            self.items[i - 1] = self.items[i];
            i = i + 1;
        }
        self.len = n - 1;
        assert(self@ =~= before.drop_first());
        r
    }

    /// The items, in order.
    pub fn as_slice(&self) -> (r: &[T])
        ensures
            r@ == self@,
    {
        proof {
            use_type_invariant(self);
        }
        vstd::slice::slice_subrange(self.items.as_slice(), 0, self.len)
    }
}

} // verus!
