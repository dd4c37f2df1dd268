use vstd::prelude::*;

verus! {

/// A little text spinner: hands out the next of four frames on every call.
pub struct Loader<'a> {
    items: Vec<&'a str>,
    current_item_index: usize,
}

impl<'a> Loader<'a> {
    pub closed spec fn spec_items(&self) -> Seq<&'a str> {
        self.items@
    }

    pub closed spec fn spec_current_item_index(&self) -> usize {
        self.current_item_index
    }

    /// The spinner is always over its four frames, with the index in range.
    pub open spec fn wf(&self) -> bool {
        self.spec_items().len() == 4 && self.spec_current_item_index() < 4
    }

    pub fn new() -> (r: Self)
        ensures
            r.wf(),
            r.spec_current_item_index() == 0,
            r.spec_items()[0]@ == "-"@,
            r.spec_items()[1]@ == "\\"@,
            r.spec_items()[2]@ == "|"@,
            r.spec_items()[3]@ == "/"@,
    {
        let items: Vec<&'a str> = vec!["-", "\\", "|", "/"];
        Self { items, current_item_index: 0 }
    }

    fn next(&mut self)
        requires
            old(self).wf(),
        ensures
            final(self).wf(),
            final(self).spec_items() == old(self).spec_items(),
            final(self).spec_current_item_index() == (old(self).spec_current_item_index() + 1)
                % 4,
    {
        self.current_item_index = (self.current_item_index + 1) % self.items.len();
    }

    /// Advances the spinner and returns its new frame.
    pub fn get_slash(&mut self) -> (r: &'a str)
        requires
            old(self).wf(),
        ensures
            final(self).wf(),
            final(self).spec_items() == old(self).spec_items(),
            final(self).spec_current_item_index() == (old(self).spec_current_item_index() + 1)
                % 4,
            r == old(self).spec_items()[final(self).spec_current_item_index() as int],
    {
        self.next();
        self.items[self.current_item_index]
    }
}

} // verus!
