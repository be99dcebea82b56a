//! Border styles of dom nodes.

use vstd::prelude::*;

verus! {

/// How a node's border is drawn.
#[derive(Clone, Copy, PartialEq, Eq, Structural, Debug)]
pub enum StyleBorder {
    /// Specifies no border
    NoBorder,
    /// Specifies a solid border
    Solid,
    /// Specifies a dotted border
    Dotted,
    /// Specifies a dashed border
    Dashed,
    /// The same as "none", except in border conflict resolution for table elements
    Hidden,
    /// Inherits this property from its parent element.
    Inherit,
}

impl Default for StyleBorder {
    /// No border.
    fn default() -> (r: StyleBorder)
        ensures
            r == StyleBorder::NoBorder,
    {
        StyleBorder::NoBorder
    }
}

} // verus!
