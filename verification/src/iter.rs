//! A finite, forward-only cursor over a decoded list.
//!
//! The variable-length runs of the binary format (detailed timings, color
//! points, CVT codes) are materialized into vectors at parse time; this
//! cursor walks such a list once, in order, and cannot be restarted.

use vstd::prelude::*;

verus! {

/// A forward-only cursor over a borrowed list of decoded items.
pub struct FFIIter<'a, T> {
    items: &'a [T],
    pos: usize,
}

impl<'a, T> FFIIter<'a, T> {
    /// The items not yet handed out.
    pub closed spec fn remaining(&self) -> Seq<T> {
        if self.pos as int <= self.items@.len() {
            self.items@.skip(self.pos as int)
        } else {
            Seq::empty()
        }
    }

    /// Start a cursor at the head of a list.
    pub fn new(items: &'a [T]) -> (r: FFIIter<'a, T>)
        ensures
            r.remaining() == items@,
    {
        let r = FFIIter { items, pos: 0 };
        proof {
            assert(items@.skip(0) =~= items@);
        }
        r
    }

    /// The next item, advancing the cursor; `None` once the list is
    /// exhausted.
    pub fn next(&mut self) -> (r: Option<&'a T>)
        ensures
            old(self).remaining().len() == 0 ==> r is None && final(self).remaining()
                == old(self).remaining(),
            old(self).remaining().len() > 0 ==> r is Some && *r->0 == old(self).remaining()[0]
                && final(self).remaining() == old(self).remaining().drop_first(),
    {
        if self.pos < self.items.len() {
            let item = &self.items[self.pos];
            self.pos = self.pos + 1;
            proof {
                assert(self.items@.skip(old(self).pos as int).drop_first() =~= self.items@.skip(
                    old(self).pos as int + 1,
                ));
            }
            Some(item)
        } else {
            proof {
                if self.pos as int <= self.items@.len() {
                    assert(self.items@.skip(self.pos as int) =~= Seq::<T>::empty());
                }
            }
            None
        }
    }
}

} // verus!
