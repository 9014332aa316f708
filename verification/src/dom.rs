//! The source virtual-DOM: the framework-agnostic tree that the templating
//! front end hands to the adapter.

use vstd::prelude::*;
use crate::events::Events;

verus! {

/// A node of the source virtual-DOM tree.
pub enum VNode<L> {
    /// A text node; its contents will be escaped where the output requires it.
    Text(String),
    /// A text node whose contents are emitted verbatim. The target
    /// framework's virtual-DOM has no verbatim text, so the adapter treats it
    /// exactly like `Text`.
    UnsafeText(String),
    /// An element node.
    Element(VElement<L>),
}

/// An element of the source virtual-DOM tree: a name, string attributes, an
/// event table, and child nodes.
pub struct VElement<L> {
    pub name: String,
    pub attributes: Vec<(String, String)>,
    pub events: Events<L>,
    pub children: Vec<VNode<L>>,
}

impl<L> VNode<L> {
    /// The node can be handed to the adapter: if it is an element, every
    /// handler in its event table is still pending. Child elements are not
    /// constrained, since the adapter reads only the root of the tree.
    pub open spec fn wf(self) -> bool {
        match self {
            VNode::Element(e) => e.events.wf(),
            _ => true,
        }
    }
}

} // verus!
