//! What a pager offers to the search: its lines and its top line.

use vstd::prelude::*;
use crate::utils::{texts, top_line, visible_before};

verus! {

/// A buffer of rendered lines with a top line that can be moved.
pub trait Pager {
    /// The rendered lines.
    spec fn pager_lines(&self) -> Seq<Seq<char>>;

    /// The number of visible characters before the top line.
    spec fn pager_anchor(&self) -> nat;

    /// The pager's invariant.
    spec fn pager_wf(&self) -> bool;

    /// The index of the top line: the line that holds the visible character at
    /// the anchor, or the first line where there is no such character.
    fn begin_line_index(&self) -> (line: usize)
        requires
            self.pager_wf(),
        ensures
            line == top_line(self.pager_lines(), self.pager_anchor()),
    ;

    /// The rendered lines.
    fn colored_lines(&self) -> (lines: &Vec<String>)
        ensures
            texts(lines@) == self.pager_lines(),
    ;

    /// Puts the top line on the line with the given index, or on the next
    /// line that holds a visible character where that line holds none.
    fn set_begin_line_index(&mut self, line_index: usize)
        requires
            old(self).pager_wf(),
        ensures
            final(self).pager_wf(),
            final(self).pager_lines() == old(self).pager_lines(),
            final(self).pager_anchor() == visible_before(old(self).pager_lines(), line_index as int),
    ;
}

} // verus!
