//! The event table of the adapter.
//!
//! Each element of the source virtual-DOM carries an [`Events`] value: one
//! optional handler per supported DOM event, keyed by the event's HTML name.
//! A handler is wrapped in a [`BoxedListener`], which holds the framework's
//! listener payload until it is attached to a target tag; attaching moves the
//! payload out, so a handler can be attached exactly once.

use core::marker::PhantomData;
use vstd::prelude::*;
use crate::yew::VTag;

verus! {

/// A concrete DOM event type, identified by the event's name as it appears
/// in the HTML standard ("blur", "change", ...).
pub trait ConcreteEvent {
    /// The event's name, as a mathematical value.
    spec fn spec_event_type() -> Seq<char>;

    /// The event's name, as the string the DOM uses for it.
    fn event_type() -> (r: &'static str)
        ensures
            r@ == Self::spec_event_type(),
    ;
}

/// The DOM `blur` event.
pub struct BlurEvent;

impl ConcreteEvent for BlurEvent {
    open spec fn spec_event_type() -> Seq<char> {
        "blur"@
    }

    fn event_type() -> (r: &'static str) {
        "blur"
    }
}

/// The DOM `change` event.
pub struct ChangeEvent;

impl ConcreteEvent for ChangeEvent {
    open spec fn spec_event_type() -> Seq<char> {
        "change"@
    }

    fn event_type() -> (r: &'static str) {
        "change"
    }
}

/// The DOM `click` event.
pub struct ClickEvent;

impl ConcreteEvent for ClickEvent {
    open spec fn spec_event_type() -> Seq<char> {
        "click"@
    }

    fn event_type() -> (r: &'static str) {
        "click"
    }
}

/// A handler for the DOM event `E`, holding the framework's listener payload
/// `L` until the handler is attached to a tag.
///
/// `listener` is `Some` while the handler is still pending and becomes `None`
/// once the payload has been moved onto a target.
pub struct BoxedListener<E: ConcreteEvent, L> {
    pub listener: Option<L>,
    pub event_type: PhantomData<E>,
}

impl<E: ConcreteEvent, L> BoxedListener<E, L> {
    /// Wraps a listener payload as a pending handler.
    pub fn new(listener: L) -> (r: Self)
        ensures
            r.listener == Some(listener),
    {
        BoxedListener { listener: Some(listener), event_type: PhantomData }
    }

    /// Moves the pending payload onto the target tag, spending the handler.
    ///
    /// The payload can be moved out only once, so a pending handler is
    /// required; the target keeps its name and attributes and gains the
    /// payload as its last listener.
    pub fn attach(&mut self, target: &mut VTag<L>)
        requires
            old(self).listener is Some,
        ensures
            final(self).listener is None,
            final(target).name == old(target).name,
            final(target).attributes == old(target).attributes,
            final(target).listeners@ == old(target).listeners@.push(old(self).listener->0),
    {
        let handler = self.listener.take().unwrap();
        target.add_listener(handler);
    }

    /// The string form of the handler for server-side rendering: listeners of
    /// this output have none, so this is always `None`.
    pub fn render(&self) -> (r: Option<String>)
        ensures
            r is None,
    {
        None
    }
}

impl<E: ConcreteEvent, L> From<L> for BoxedListener<E, L> {
    /// Wraps a listener payload as a pending handler, as [`BoxedListener::new`]
    /// does.
    fn from(listener: L) -> (r: Self) {
        BoxedListener::new(listener)
    }
}

impl<E: ConcreteEvent, L> vstd::std_specs::convert::FromSpecImpl<L> for BoxedListener<E, L> {
    open spec fn obeys_from_spec() -> bool {
        true
    }

    open spec fn from_spec(listener: L) -> Self {
        BoxedListener { listener: Some(listener), event_type: PhantomData }
    }
}

/// The pending listeners of one optional event slot: one payload if the slot
/// holds a still-pending handler, none otherwise.
pub open spec fn slot_pending<E: ConcreteEvent, L>(slot: Option<BoxedListener<E, L>>) -> Seq<L> {
    match slot {
        Some(handler) => match handler.listener {
            Some(payload) => seq![payload],
            None => Seq::empty(),
        },
        None => Seq::empty(),
    }
}

/// The event table of one element: one optional handler per supported DOM
/// event.
///
/// The fields stand in the order in which the adapter walks the table when
/// installing handlers.
pub struct Events<L> {
    pub blur: Option<BoxedListener<BlurEvent, L>>,
    pub change: Option<BoxedListener<ChangeEvent, L>>,
    pub click: Option<BoxedListener<ClickEvent, L>>,
}

impl<L> Events<L> {
    /// The listener payloads still waiting to be attached, in table order:
    /// blur, change, click.
    pub open spec fn pending(self) -> Seq<L> {
        slot_pending(self.blur) + slot_pending(self.change) + slot_pending(self.click)
    }

    /// Every handler present in the table is still pending: installing such
    /// a table spends each handler exactly once.
    pub open spec fn wf(self) -> bool {
        &&& (self.blur matches Some(h) ==> h.listener is Some)
        &&& (self.change matches Some(h) ==> h.listener is Some)
        &&& (self.click matches Some(h) ==> h.listener is Some)
    }

    /// `self` is `before` with every handler spent: each slot is occupied
    /// exactly where it was before, and no occupied slot still holds a
    /// payload.
    pub open spec fn drained_of(self, before: Events<L>) -> bool {
        &&& self.blur is Some <==> before.blur is Some
        &&& self.change is Some <==> before.change is Some
        &&& self.click is Some <==> before.click is Some
        &&& (self.blur matches Some(h) ==> h.listener is None)
        &&& (self.change matches Some(h) ==> h.listener is None)
        &&& (self.click matches Some(h) ==> h.listener is None)
    }
}

impl<L> Default for Events<L> {
    /// The empty event table: no handler on any event.
    fn default() -> (r: Self)
        ensures
            r.blur is None,
            r.change is None,
            r.click is None,
    {
        Events { blur: None, change: None, click: None }
    }
}

} // verus!
