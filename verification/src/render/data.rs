//! What a rendering keeps beside its state: the links that wait to be
//! written out.

use crate::references::{references_of, LinkReference, LinkReferenceDefinition};
use crate::terminal::ansi::Colour;
use vstd::prelude::*;

verus! {

/// The links that wait to be written out, and the number of the next link.
#[derive(Debug, PartialEq, Eq)]
pub struct StateData {
    /// The links that wait to be written out, in the order they were added.
    pub pending_link_definitions: Vec<LinkReferenceDefinition>,
    /// The number that the next link gets.
    pub next_link: u64,
}

/// The data of a rendering as plain values.
pub struct PendingLinks {
    /// The links that wait to be written out, in the order they were added.
    pub pending: Seq<LinkReference>,
    /// The number that the next link gets.
    pub next_link: u64,
}

impl PendingLinks {
    /// No link waits, and the next link is the first.
    pub open spec fn initial() -> PendingLinks {
        PendingLinks { pending: Seq::empty(), next_link: 1 }
    }

    /// These data after a link to `target` with the title `title`, to be
    /// written in `colour`, was added: it waits behind the others under the
    /// next number, and the number after it is the next.
    pub open spec fn added(self, target: Seq<char>, title: Seq<char>, colour: Colour) -> PendingLinks {
        PendingLinks {
            pending: self.pending.push(
                LinkReference { index: self.next_link, target, title, colour },
            ),
            next_link: (self.next_link + 1) as u64,
        }
    }

    /// These data after the links that waited were taken out.
    pub open spec fn taken(self) -> PendingLinks {
        PendingLinks { pending: Seq::empty(), ..self }
    }

    /// Whether the numbers of the links that wait go up strictly in the order
    /// they were added, from one at least, and stay below the next number: no
    /// number is used twice.
    pub open spec fn numbered_in_order(self) -> bool {
        &&& forall|i: int| 0 <= i < self.pending.len() ==> 1 <= #[trigger] self.pending[i].index < self.next_link
        &&& forall|i: int, j: int|
            0 <= i < j < self.pending.len() ==> #[trigger] self.pending[i].index < #[trigger] self.pending[j].index
    }
}

impl View for StateData {
    type V = PendingLinks;

    open spec fn view(&self) -> PendingLinks {
        PendingLinks {
            pending: references_of(self.pending_link_definitions@),
            next_link: self.next_link,
        }
    }
}

impl StateData {
    /// The data at the start of a document.
    pub fn new() -> (r: StateData)
        ensures
            r@ == PendingLinks::initial(),
    {
        let r = StateData { pending_link_definitions: Vec::new(), next_link: 1 };
        assert(r@.pending =~= Seq::empty());
        r
    }

    /// Add a pending link to the state data.
    ///
    /// `target` is the link target, and `title` the link title to show after
    /// the URL.  `colour` is the colour to use for foreground text to
    /// differentiate between different types of links.
    ///
    /// Gives the new data and the number of the link.
    pub fn add_link(self, target: String, title: String, colour: Colour) -> (r: (StateData, u64))
        requires
            self.next_link < u64::MAX,
        ensures
            r.0@ == self@.added(target@, title@, colour),
            r.1 == self.next_link,
    {
        let ghost before = self@;
        let index = self.next_link;
        let mut pending = self.pending_link_definitions;
        pending.push(LinkReferenceDefinition { index, target, title, colour });
        let data = StateData { pending_link_definitions: pending, next_link: index + 1 };
        assert(data@.pending =~= before.added(target@, title@, colour).pending);
        (data, index)
    }

    /// Take the links that wait out of the data.
    pub fn take_links(self) -> (r: (StateData, Vec<LinkReferenceDefinition>))
        ensures
            r.0@ == self@.taken(),
            references_of(r.1@) == self@.pending,
    {
        let links = self.pending_link_definitions;
        let data = StateData { pending_link_definitions: Vec::new(), next_link: self.next_link };
        assert(data@.pending =~= Seq::empty());
        (data, links)
    }
}

/// Adding a link keeps the numbers in order.
pub proof fn lemma_added_in_order(data: PendingLinks, target: Seq<char>, title: Seq<char>, colour: Colour)
    requires
        data.numbered_in_order(),
        1 <= data.next_link < u64::MAX,
    ensures
        data.added(target, title, colour).numbered_in_order(),
{
}

} // verus!
