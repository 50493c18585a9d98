//! The lines that an operation wants written to the log, in order.

use vstd::prelude::*;

verus! {

/// Log lines that wait to be written.
pub struct Journal {
    lines: Vec<String>,
}

impl View for Journal {
    type V = Seq<Seq<char>>;

    closed spec fn view(&self) -> Seq<Seq<char>> {
        self.lines@.map_values(|line: String| line@)
    }
}

impl Journal {
    /// A journal without lines.
    pub fn new() -> (r: Self)
        ensures
            r@ == Seq::<Seq<char>>::empty(),
    {
        let r = Journal { lines: Vec::new() };
        assert(r@ =~= Seq::<Seq<char>>::empty());
        r
    }

    /// Adds a line at the end.
    pub fn record(&mut self, line: String)
        ensures
            final(self)@ == old(self)@.push(line@),
    {
        self.lines.push(line);
        assert(self@ =~= old(self)@.push(line@));
    }

    /// The lines, oldest first.
    pub fn into_lines(self) -> (r: Vec<String>)
        ensures
            r@.map_values(|line: String| line@) == self@,
    {
        self.lines
    }
}

} // verus!
