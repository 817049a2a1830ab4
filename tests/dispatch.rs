use component_registry::component::{AnyComponent, Component1, Component2};
use component_registry::message::{ComponentMsg, ComponentType, Message, Reaction};
use component_registry::registry::ComponentRegistry;

fn msg(m: Message, id: i32) -> ComponentMsg {
    ComponentMsg { msg: m, id }
}

fn reaction(kind: ComponentType, id: i32, m: Message) -> Reaction {
    Reaction { kind, id, msg: m }
}

fn sample_registry() -> ComponentRegistry {
    let mut registry = ComponentRegistry::new();
    Component1::new(&mut registry, 1, "state1".to_string());
    Component1::new(&mut registry, 2, "state3".to_string());
    Component2::new(&mut registry, 1, "state1".to_string());
    Component2::new(&mut registry, 2, "state5".to_string());
    Component2::new(&mut registry, 3, "state2".to_string());
    registry
}

#[test]
fn sample_sequence_reacts_only_on_matching_ids() {
    let mut registry = sample_registry();
    assert_eq!(
        registry.trigger(ComponentType::Component1, msg(Message::Msg2, 1)),
        vec![reaction(ComponentType::Component1, 1, Message::Msg2)]
    );
    assert_eq!(
        registry.trigger(ComponentType::Component2, msg(Message::Msg3, 3)),
        vec![reaction(ComponentType::Component2, 3, Message::Msg3)]
    );
    assert_eq!(
        registry.trigger(ComponentType::Component2, msg(Message::Msg1, 1)),
        vec![reaction(ComponentType::Component2, 1, Message::Msg1)]
    );
    assert_eq!(registry.trigger(ComponentType::Component1, msg(Message::Msg1, 99)), vec![]);
}

#[test]
fn trigger_on_empty_registry_does_nothing() {
    let mut registry = ComponentRegistry::new();
    assert_eq!(registry.trigger(ComponentType::Component1, msg(Message::Msg1, 1)), vec![]);
    assert_eq!(registry.trigger(ComponentType::Component2, msg(Message::Msg3, 0)), vec![]);
    assert_eq!(registry.group_len(ComponentType::Component1), 0);
    assert_eq!(registry.group_len(ComponentType::Component2), 0);
}

#[test]
fn trigger_on_unregistered_tag_leaves_other_group_alone() {
    let mut registry = ComponentRegistry::new();
    Component1::new(&mut registry, 7, "s".to_string());
    assert_eq!(registry.trigger(ComponentType::Component2, msg(Message::Msg2, 7)), vec![]);
    assert_eq!(registry.group_len(ComponentType::Component1), 1);
    assert_eq!(registry.group_len(ComponentType::Component2), 0);
}

#[test]
fn only_matching_component_reacts_once() {
    let mut registry = sample_registry();
    let out = registry.trigger(ComponentType::Component2, msg(Message::Msg2, 2));
    assert_eq!(out, vec![reaction(ComponentType::Component2, 2, Message::Msg2)]);
    let again = registry.trigger(ComponentType::Component2, msg(Message::Msg2, 2));
    assert_eq!(again, out);
}

#[test]
fn fan_out_follows_registration_order() {
    let mut registry = ComponentRegistry::new();
    registry.register(ComponentType::Component1, AnyComponent::Component2(Component2::new(&mut ComponentRegistry::new(), 5, "b".to_string())));
    registry.register(ComponentType::Component1, AnyComponent::Component1(Component1::new(&mut ComponentRegistry::new(), 5, "a".to_string())));
    assert_eq!(
        registry.trigger(ComponentType::Component1, msg(Message::Msg3, 5)),
        vec![
            reaction(ComponentType::Component2, 5, Message::Msg3),
            reaction(ComponentType::Component1, 5, Message::Msg3),
        ]
    );
}

#[test]
fn duplicate_ids_are_kept_and_all_react() {
    let mut registry = ComponentRegistry::new();
    for _ in 0..4 {
        Component1::new(&mut registry, 1, "dup".to_string());
    }
    assert_eq!(registry.group_len(ComponentType::Component1), 4);
    assert_eq!(registry.group_len(ComponentType::Component2), 0);
    assert_eq!(
        registry.trigger(ComponentType::Component1, msg(Message::Msg1, 1)),
        vec![reaction(ComponentType::Component1, 1, Message::Msg1); 4]
    );
}

#[test]
fn group_sizes_count_registrations() {
    let registry = sample_registry();
    assert_eq!(registry.group_len(ComponentType::Component1), 2);
    assert_eq!(registry.group_len(ComponentType::Component2), 3);
    let third = registry.component(ComponentType::Component2, 2);
    assert_eq!(third.id(), 3);
    assert_eq!(third.get_state(), "state2".to_string());
}

#[test]
fn read_state_is_stable() {
    let mut registry = ComponentRegistry::new();
    let c = Component2::new(&mut registry, 4, "state5".to_string());
    assert_eq!(c.get_state(), "state5".to_string());
    assert_eq!(c.get_state(), c.get_state());
    let registered = registry.component(ComponentType::Component2, 0);
    assert_eq!(registered.get_state(), registered.get_state());
    assert_eq!(registered.get_state(), "state5".to_string());
}

#[test]
fn update_reacts_only_to_own_id() {
    let mut registry = ComponentRegistry::new();
    let mut c = Component1::new(&mut registry, -3, "x".to_string());
    assert_eq!(c.update(&msg(Message::Msg1, 3)), None);
    assert_eq!(
        c.update(&msg(Message::Msg1, -3)),
        Some(reaction(ComponentType::Component1, -3, Message::Msg1))
    );
    assert_eq!(c.id(), -3);
    assert_eq!(c.get_state(), "x".to_string());
}

#[test]
fn registered_copy_is_a_snapshot() {
    let mut registry = ComponentRegistry::new();
    let c = Component1::new(&mut registry, 9, "first".to_string());
    drop(c);
    let kept = registry.component(ComponentType::Component1, 0);
    assert_eq!(kept.id(), 9);
    assert_eq!(kept.get_state(), "first".to_string());
}

#[test]
fn extreme_ids_match_exactly() {
    let mut registry = ComponentRegistry::new();
    Component2::new(&mut registry, i32::MIN, "lo".to_string());
    Component2::new(&mut registry, i32::MAX, "hi".to_string());
    assert_eq!(
        registry.trigger(ComponentType::Component2, msg(Message::Msg2, i32::MAX)),
        vec![reaction(ComponentType::Component2, i32::MAX, Message::Msg2)]
    );
    assert_eq!(registry.trigger(ComponentType::Component2, msg(Message::Msg2, 0)), vec![]);
}
