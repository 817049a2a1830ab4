//! An in-process event-dispatch registry: components register under a type
//! tag, and a message triggered for a tag is delivered to every component of
//! that group, in registration order.

pub mod component;
pub mod message;
pub mod registry;
