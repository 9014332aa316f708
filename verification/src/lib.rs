//! Output adapter for a typed-HTML virtual-DOM tree.
//!
//! A templating front end produces a framework-agnostic virtual-DOM tree
//! ([`dom::VNode`]) in which each element carries a table of optional DOM
//! event handlers. This crate walks such a tree and re-emits it in the
//! vocabulary of a component-based GUI framework: text nodes become text
//! nodes, elements become tags ([`yew::VTag`]) carrying the same name and
//! attributes, and every pending event handler is moved onto the tag as a
//! listener, in the fixed order of the event table.

pub mod dom;
pub mod events;
pub mod yew;
