use vstd::prelude::*;

verus! {

/// Walks a slice from the front, one element at a time.
pub struct MyIterator<'a, T> {
    slice: &'a [T],
    pos: usize,
}

impl<'a, T> MyIterator<'a, T> {
    /// The elements not yet handed out.
    pub closed spec fn rest(&self) -> Seq<T> {
        self.slice@.subrange(self.pos as int, self.slice@.len() as int)
    }

    pub closed spec fn wf(&self) -> bool {
        self.pos <= self.slice@.len()
    }

    /// A cursor at the start of the slice.
    pub fn new(slice: &'a [T]) -> (r: MyIterator<'a, T>)
        ensures
            r.wf(),
            r.rest() == slice@,
    {
        let r = MyIterator { slice, pos: 0 };
        assert(r.rest() =~= slice@);
        r
    }

    /// The next element, if any is left.
    pub fn next(&mut self) -> (r: Option<&'a T>)
        requires
            old(self).wf(),
        ensures
            final(self).wf(),
            old(self).rest().len() == 0 ==> r is None && final(self).rest() == old(self).rest(),
            old(self).rest().len() > 0 ==> (r matches Some(x) && *x == old(self).rest()[0]
                && final(self).rest() == old(self).rest().drop_first()),
    {
        if self.pos < self.slice.len() {
            let element = &self.slice[self.pos];
            self.pos = self.pos + 1;
            assert(self.rest() =~= old(self).rest().drop_first());
            Some(element)
        } else {
            None
        }
    }
}

} // verus!
