use std::collections::VecDeque;
use vstd::prelude::*;

verus! {

/// The positions of the spaces in a text, in order.
pub open spec fn spec_space_indices(s: Seq<char>) -> Seq<usize>
    decreases s.len(),
{
    if s.len() == 0 {
        Seq::empty()
    } else {
        let pre = spec_space_indices(s.drop_last());
        if s.last() == ' ' {
            pre.push((s.len() - 1) as usize)
        } else {
            pre
        }
    }
}

/// Tracks where the spaces of the target text are, handing out the nearest
/// one ahead of the cursor.
pub struct SpacePosition {
    near_space_index: usize,
    indexes: VecDeque<usize>,
}

impl SpacePosition {
    pub closed spec fn spec_near_space_index(&self) -> usize {
        self.near_space_index
    }

    pub closed spec fn spec_indexes(&self) -> Seq<usize> {
        self.indexes@
    }

    /// Collects the space positions of the text; the first becomes the near
    /// one, or zero if the text has no space at all.
    pub fn new(text: &Vec<char>) -> (r: Self)
        ensures
            ({
                let sp = spec_space_indices(text@);
                if sp.len() > 0 {
                    r.spec_near_space_index() == sp[0] && r.spec_indexes() == sp.drop_first()
                } else {
                    r.spec_near_space_index() == 0 && r.spec_indexes() == sp
                }
            }),
    {
        let ghost all = spec_space_indices(text@);
        let mut indexes: VecDeque<usize> = VecDeque::new();
        proof {
            assert(text@.subrange(0, 0) =~= Seq::<char>::empty());
        }
        for i in 0..text.len()
            invariant
                all == spec_space_indices(text@),
                indexes@ == spec_space_indices(text@.subrange(0, i as int)),
        {
            proof {
                assert(text@.subrange(0, i + 1).drop_last() =~= text@.subrange(0, i as int));
                assert(text@.subrange(0, i + 1).last() == text@[i as int]);
            }
            if text[i] == ' ' {
                indexes.push_back(i);
            }
        }
        proof {
            assert(text@.subrange(0, text@.len() as int) =~= text@);
        }
        let near_space_index = match indexes.pop_front() {
            Some(first) => first,
            None => 0,
        };
        Self { near_space_index, indexes }
    }

    /// The position of the nearest space ahead.
    pub fn near_space_index(&self) -> (r: usize)
        ensures
            r == self.spec_near_space_index(),
    {
        self.near_space_index
    }

    /// Advances to the next space position, or to zero when none is left.
    pub fn next_index(&mut self)
        ensures
            old(self).spec_indexes().len() > 0 ==> final(self).spec_near_space_index() == old(
                self,
            ).spec_indexes()[0] && final(self).spec_indexes() == old(
                self,
            ).spec_indexes().drop_first(),
            old(self).spec_indexes().len() == 0 ==> final(self).spec_near_space_index() == 0
                && final(self).spec_indexes() == old(self).spec_indexes(),
    {
        self.near_space_index = match self.indexes.pop_front() {
            Some(next) => next,
            None => 0,
        };
    }
}

/// The rendering cursor: an index into the target text, together with the
/// positions of the spaces of that text.
pub struct Cursor {
    space_position: SpacePosition,
    /// Index within a generated text
    index: u16,
}

impl Cursor {
    pub closed spec fn spec_index(&self) -> u16 {
        self.index
    }

    pub closed spec fn spec_space_position(&self) -> SpacePosition {
        self.space_position
    }

    pub fn new(text: &Vec<char>) -> (r: Self)
        ensures
            r.spec_index() == 0,
            ({
                let sp = spec_space_indices(text@);
                if sp.len() > 0 {
                    r.spec_space_position().spec_near_space_index() == sp[0]
                        && r.spec_space_position().spec_indexes() == sp.drop_first()
                } else {
                    r.spec_space_position().spec_near_space_index() == 0
                        && r.spec_space_position().spec_indexes() == sp
                }
            }),
    {
        Self { space_position: SpacePosition::new(text), index: 0 }
    }

    /// Whether the given position is the nearest space; if so, the tracker
    /// advances past it.
    pub fn is_space(&mut self, index: usize) -> (r: bool)
        ensures
            r == (index == old(self).spec_space_position().spec_near_space_index()),
            final(self).spec_index() == old(self).spec_index(),
            !r ==> *final(self) == *old(self),
    {
        if index == self.space_position.near_space_index() {
            self.space_position.next_index();
            true
        } else {
            false
        }
    }

    /// Puts the cursor back at the start of the text.
    pub fn reset(&mut self)
        ensures
            final(self).spec_index() == 0,
            final(self).spec_space_position() == old(self).spec_space_position(),
    {
        self.index = 0;
    }

    pub fn move_forward(&mut self)
        requires
            old(self).spec_index() < u16::MAX,
        ensures
            final(self).spec_index() == old(self).spec_index() + 1,
            final(self).spec_space_position() == old(self).spec_space_position(),
    {
        self.index = self.index + 1;
    }

    pub fn move_backward(&mut self)
        requires
            old(self).spec_index() > 0,
        ensures
            final(self).spec_index() == old(self).spec_index() - 1,
            final(self).spec_space_position() == old(self).spec_space_position(),
    {
        self.index = self.index - 1;
    }

    pub fn index(&self) -> (r: usize)
        ensures
            r == self.spec_index() as usize,
    {
        self.index as usize
    }
}

} // verus!
