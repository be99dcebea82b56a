//! Glyph outlines as lines of text, one per drawing command.

use vstd::prelude::*;

verus! {

/// The drawing commands of a glyph outline, one line of text each.
pub struct Outlines(Vec<String>);

impl Outlines {
    /// The lines, in the order they were added.
    pub closed spec fn view(&self) -> Seq<String> {
        self.0@
    }

    /// No lines yet.
    pub fn new() -> (o: Self)
        ensures
            o@.len() == 0,
    {
        Outlines(Vec::new())
    }

    /// Adds the line of one drawing command.
    pub fn push(&mut self, line: String)
        ensures
            final(self)@ == old(self)@.push(line),
    {
        self.0.push(line);
    }

    /// The lines, in the order they were added.
    pub fn into_iter(self) -> (r: Vec<String>)
        ensures
            r@ == self@,
    {
        self.0
    }
}

} // verus!
