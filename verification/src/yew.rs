//! The framework-side virtual-DOM vocabulary that the adapter emits.
//!
//! The GUI framework being targeted consumes a tree of virtual nodes: text
//! nodes, and tags that carry a name, a list of string attributes and a list
//! of event listeners. Only the parts of that vocabulary that the adapter
//! writes are modelled here, as plain values, so that the translation itself
//! can be specified and checked; actually mounting such a node into a browser
//! document is the framework's business, not this crate's.

use core::marker::PhantomData;
use vstd::prelude::*;
use crate::dom::{VElement, VNode};
use crate::events::Events;

verus! {

/// A virtual tag of the target framework: an element name together with the
/// attributes and event listeners that will be set on the rendered element.
///
/// `L` is the framework's listener payload (in the framework itself, a boxed
/// callback that turns a DOM event into a component message).
pub struct VTag<L> {
    pub name: String,
    pub attributes: Vec<(String, String)>,
    pub listeners: Vec<L>,
}

impl<L> VTag<L> {
    /// An empty tag: the given element name, no attributes, no listeners.
    pub fn new(name: String) -> (r: Self)
        ensures
            r.name == name,
            r.attributes@ == Seq::<(String, String)>::empty(),
            r.listeners@ == Seq::<L>::empty(),
    {
        VTag { name, attributes: Vec::new(), listeners: Vec::new() }
    }

    /// Appends one listener, leaving the name and the attributes alone.
    pub fn add_listener(&mut self, listener: L)
        ensures
            final(self).name == old(self).name,
            final(self).attributes == old(self).attributes,
            final(self).listeners@ == old(self).listeners@.push(listener),
    {
        self.listeners.push(listener);
    }
}

/// A virtual node of the target framework, as far as the adapter produces
/// them: a plain text node, or a tag.
pub enum Html<L> {
    Text(String),
    Tag(VTag<L>),
}

/// The output target: the adapter that re-emits a source virtual-DOM tree in
/// the framework's vocabulary.
///
/// `L` is the framework's listener payload. The type only names the target;
/// no value of it is ever made.
pub struct Yew<L> {
    listener_type: PhantomData<L>,
}

impl<L> Yew<L> {
    /// Attaches every handler of the table to the target tag.
    ///
    /// The handlers go on in table order — blur, change, click — after any
    /// listener the tag already has; the tag's name and attributes stay as
    /// they were. Every handler of the table is spent: each slot stays
    /// occupied exactly where it was, but no payload is left in it.
    pub fn install_handlers(target: &mut VTag<L>, handlers: &mut Events<L>)
        requires
            old(handlers).wf(),
        ensures
            final(target).name == old(target).name,
            final(target).attributes == old(target).attributes,
            final(target).listeners@ == old(target).listeners@ + old(handlers).pending(),
            final(handlers).drained_of(*old(handlers)),
    {
        match &mut handlers.blur {
            Some(handler) => handler.attach(target),
            None => {},
        }
        match &mut handlers.change {
            Some(handler) => handler.attach(target),
            None => {},
        }
        match &mut handlers.click {
            Some(handler) => handler.attach(target),
            None => {},
        }
    }

    /// Re-emits one source virtual-DOM node in the framework's vocabulary.
    ///
    /// Text becomes a text node with the same contents, verbatim text
    /// likewise (the framework has no verbatim text of its own), and an
    /// element becomes a tag with the element's name and attributes, carrying
    /// the element's pending event handlers as listeners in table order.
    /// Only the root of the tree is read: the element's children are
    /// dropped, as is each handler's event type.
    pub fn to_yew_html(vnode: VNode<L>) -> (r: Html<L>)
        requires
            vnode.wf(),
        ensures
            (match vnode {
                VNode::Text(text) => r == Html::<L>::Text(text),
                VNode::UnsafeText(text) => r == Html::<L>::Text(text),
                VNode::Element(element) => r matches Html::Tag(tag)
                    && tag.name == element.name
                    && tag.attributes == element.attributes
                    && tag.listeners@ == element.events.pending(),
            }),
    {
        match vnode {
            VNode::Text(text) => Html::Text(text),
            VNode::UnsafeText(text) => Html::Text(text),
            VNode::Element(element) => {
                let VElement { name, attributes, mut events, children: _ } = element;
                let mut tag = VTag::new(name);
                tag.attributes = attributes;
                Self::install_handlers(&mut tag, &mut events);
                Html::Tag(tag)
            },
        }
    }
}

} // verus!
