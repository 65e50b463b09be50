//! References to links that could not be written where they stand.

use crate::terminal::ansi::Colour;
use vstd::prelude::*;

verus! {

/// A link that waits to be written out below the text that refers to it.
#[derive(Clone, Debug, PartialEq, Eq)]
pub struct LinkReferenceDefinition {
    /// The number by which the text refers to the link.
    pub index: u64,
    /// Where the link leads.
    pub target: String,
    /// The title of the link; empty where it has none.
    pub title: String,
    /// The colour in which the reference is written.
    pub colour: Colour,
}

/// What a link reference holds, as plain values.
pub struct LinkReference {
    pub index: u64,
    pub target: Seq<char>,
    pub title: Seq<char>,
    pub colour: Colour,
}

impl View for LinkReferenceDefinition {
    type V = LinkReference;

    open spec fn view(&self) -> LinkReference {
        LinkReference {
            index: self.index,
            target: self.target@,
            title: self.title@,
            colour: self.colour,
        }
    }
}

/// The link references of `links`, each as plain values.
pub open spec fn references_of(links: Seq<LinkReferenceDefinition>) -> Seq<LinkReference> {
    Seq::new(links.len(), |i: int| links[i]@)
}

} // verus!
