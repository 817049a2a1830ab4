use vstd::prelude::*;

verus! {

/// The tag under which a component is registered and messages are routed.
#[derive(Clone, Copy, Debug, PartialEq, Eq, Structural, Hash)]
pub enum ComponentType {
    Component1,
    Component2,
}

/// The position of a tag's group in the registry's table.
pub open spec fn tag_slot(kind: ComponentType) -> int {
    match kind {
        ComponentType::Component1 => 0,
        ComponentType::Component2 => 1,
    }
}

/// The number of tags, and so of groups in the registry.
pub const TAG_COUNT: usize = 2;

impl ComponentType {
    /// The slot of this tag's group.
    pub fn slot(&self) -> (r: usize)
        ensures
            r as int == tag_slot(*self),
            r < TAG_COUNT,
    {
        match self {
            ComponentType::Component1 => 0,
            ComponentType::Component2 => 1,
        }
    }
}

/// The payload-free kind of a message.
#[derive(Clone, Copy, Debug, PartialEq, Eq, Structural, Hash)]
pub enum Message {
    Msg1,
    Msg2,
    Msg3,
}

/// A message together with the identifier of the component it is meant for.
#[derive(Clone, Copy, Debug, PartialEq, Eq, Structural)]
pub struct ComponentMsg {
    pub msg: Message,
    pub id: i32,
}

/// The observable effect of a component acting on a message: which kind of
/// component acted, its identifier, and the message it handled.
#[derive(Clone, Copy, Debug, PartialEq, Eq, Structural)]
pub struct Reaction {
    pub kind: ComponentType,
    pub id: i32,
    pub msg: Message,
}

} // verus!
