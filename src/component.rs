use vstd::prelude::*;
use crate::message::{ComponentMsg, ComponentType, Reaction};
use crate::registry::ComponentRegistry;

verus! {

/// What a component is, as far as dispatch is concerned: its kind, its
/// identifier and its state.
pub struct ComponentView {
    pub kind: ComponentType,
    pub id: i32,
    pub state: Seq<char>,
}

impl ComponentView {
    /// The effect of delivering `msg` to this component: it acts exactly when
    /// the message's target identifier is its own.
    pub open spec fn reaction(self, msg: ComponentMsg) -> Option<Reaction> {
        if self.id == msg.id {
            Some(Reaction { kind: self.kind, id: self.id, msg: msg.msg })
        } else {
            None
        }
    }
}

/// A component of the first kind.
pub struct Component1 {
    id: i32,
    state: String,
}

impl View for Component1 {
    type V = ComponentView;

    closed spec fn view(&self) -> ComponentView {
        ComponentView { kind: ComponentType::Component1, id: self.id, state: self.state@ }
    }
}

impl Component1 {
    /// Builds a component and registers a snapshot of it under its tag. The
    /// returned value and the registered copy are independent afterwards.
    pub fn new(registry: &mut ComponentRegistry, id: i32, state: String) -> (r: Component1)
        ensures
            r@ == (ComponentView { kind: ComponentType::Component1, id: id, state: state@ }),
            final(registry).group(ComponentType::Component1)
                == old(registry).group(ComponentType::Component1).push(r@),
            final(registry).group(ComponentType::Component2)
                == old(registry).group(ComponentType::Component2),
    {
        let c1 = Component1 { id, state };
        let copy = Component1 { id: c1.id, state: c1.state.clone() };
        registry.register(ComponentType::Component1, AnyComponent::Component1(copy));
        c1
    }

    pub fn id(&self) -> (r: i32)
        ensures
            r == self@.id,
    {
        self.id
    }

    /// A copy of the state; reading it changes nothing.
    pub fn get_state(&self) -> (r: String)
        ensures
            r@ == self@.state,
    {
        self.state.clone()
    }

    /// Delivers a message: the component acts on it when the target
    /// identifier is its own, and reports what it did.
    pub fn update(&mut self, msg: &ComponentMsg) -> (r: Option<Reaction>)
        ensures
            *final(self) == *old(self),
            r == old(self)@.reaction(*msg),
    {
        if self.id == msg.id {
            Some(Reaction { kind: ComponentType::Component1, id: self.id, msg: msg.msg })
        } else {
            None
        }
    }
}

/// A component of the second kind.
pub struct Component2 {
    id: i32,
    state: String,
}

impl View for Component2 {
    type V = ComponentView;

    closed spec fn view(&self) -> ComponentView {
        ComponentView { kind: ComponentType::Component2, id: self.id, state: self.state@ }
    }
}

impl Component2 {
    /// Builds a component and registers a snapshot of it under its tag. The
    /// returned value and the registered copy are independent afterwards.
    pub fn new(registry: &mut ComponentRegistry, id: i32, state: String) -> (r: Component2)
        ensures
            r@ == (ComponentView { kind: ComponentType::Component2, id: id, state: state@ }),
            final(registry).group(ComponentType::Component2)
                == old(registry).group(ComponentType::Component2).push(r@),
            final(registry).group(ComponentType::Component1)
                == old(registry).group(ComponentType::Component1),
    {
        let c2 = Component2 { id, state };
        let copy = Component2 { id: c2.id, state: c2.state.clone() };
        registry.register(ComponentType::Component2, AnyComponent::Component2(copy));
        c2
    }

    pub fn id(&self) -> (r: i32)
        ensures
            r == self@.id,
    {
        self.id
    }

    /// A copy of the state; reading it changes nothing.
    pub fn get_state(&self) -> (r: String)
        ensures
            r@ == self@.state,
    {
        self.state.clone()
    }

    /// Delivers a message: the component acts on it when the target
    /// identifier is its own, and reports what it did.
    pub fn update(&mut self, msg: &ComponentMsg) -> (r: Option<Reaction>)
        ensures
            *final(self) == *old(self),
            r == old(self)@.reaction(*msg),
    {
        if self.id == msg.id {
            Some(Reaction { kind: ComponentType::Component2, id: self.id, msg: msg.msg })
        } else {
            None
        }
    }
}

/// A component of any kind, as the registry holds it.
pub enum AnyComponent {
    Component1(Component1),
    Component2(Component2),
}

impl View for AnyComponent {
    type V = ComponentView;

    open spec fn view(&self) -> ComponentView {
        match self {
            AnyComponent::Component1(c) => c@,
            AnyComponent::Component2(c) => c@,
        }
    }
}

impl AnyComponent {
    pub fn id(&self) -> (r: i32)
        ensures
            r == self@.id,
    {
        match self {
            AnyComponent::Component1(c) => c.id(),
            AnyComponent::Component2(c) => c.id(),
        }
    }

    /// A copy of the state; reading it changes nothing.
    pub fn get_state(&self) -> (r: String)
        ensures
            r@ == self@.state,
    {
        match self {
            AnyComponent::Component1(c) => c.get_state(),
            AnyComponent::Component2(c) => c.get_state(),
        }
    }

    /// Delivers a message to the component, whatever its kind.
    pub fn update(&mut self, msg: &ComponentMsg) -> (r: Option<Reaction>)
        ensures
            *final(self) == *old(self),
            r == old(self)@.reaction(*msg),
    {
        match self {
            AnyComponent::Component1(c) => c.update(msg),
            AnyComponent::Component2(c) => c.update(msg),
        }
    }
}

} // verus!
