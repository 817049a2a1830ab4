use vstd::prelude::*;
use crate::component::{AnyComponent, ComponentView};
use crate::message::{tag_slot, ComponentMsg, ComponentType, Reaction, TAG_COUNT};

verus! {

/// The reactions that delivering `msg` to each component of `group`, in
/// order, produces.
pub open spec fn reactions(group: Seq<ComponentView>, msg: ComponentMsg) -> Seq<Reaction> {
    group.filter_map(|c: ComponentView| c.reaction(msg))
}

/// The reaction of one component to `msg`, as a sequence of zero or one
/// element.
pub open spec fn reaction_of(c: ComponentView, msg: ComponentMsg) -> Seq<Reaction> {
    match c.reaction(msg) {
        Some(x) => seq![x],
        None => Seq::empty(),
    }
}

/// Registers each of `added`, in order, after the components of `group`.
pub open spec fn register_each(group: Seq<ComponentView>, added: Seq<ComponentView>) -> Seq<ComponentView>
    decreases added.len(),
{
    if added.len() == 0 {
        group
    } else {
        register_each(group, added.drop_last()).push(added.last())
    }
}

/// Delivering a message to two groups one after the other gives the
/// reactions of the first, then those of the second.
pub proof fn lemma_reactions_concat(a: Seq<ComponentView>, b: Seq<ComponentView>, msg: ComponentMsg)
    ensures
        reactions(a + b, msg) == reactions(a, msg) + reactions(b, msg),
    decreases b.len(),
{
    if b.len() == 0 {
        assert(a + b =~= a);
        assert(reactions(b, msg) =~= Seq::<Reaction>::empty());
        assert(reactions(a, msg) + reactions(b, msg) =~= reactions(a, msg));
    } else {
        lemma_reactions_concat(a, b.drop_last(), msg);
        assert((a + b).drop_last() =~= a + b.drop_last());
        assert((a + b).last() == b.last());
        assert(reactions(a + b, msg) =~= reactions(a, msg) + reactions(b, msg));
    }
}

/// A tag with no registrations: triggering it yields no reaction (and, by
/// `trigger`'s contract, leaves the registry as it was).
pub proof fn lemma_empty_group_is_silent(registry: ComponentRegistry, kind: ComponentType, msg: ComponentMsg)
    requires
        registry.group(kind).len() == 0,
    ensures
        reactions(registry.group(kind), msg) == Seq::<Reaction>::empty(),
{
    assert(reactions(registry.group(kind), msg) =~= Seq::<Reaction>::empty());
}

/// Each registered component contributes to a trigger exactly its own
/// reaction, in its own position: one reaction when the message's target is
/// its identifier, none otherwise.
pub proof fn lemma_one_reaction_per_match(group: Seq<ComponentView>, msg: ComponentMsg, i: int)
    requires
        0 <= i < group.len(),
    ensures
        reactions(group, msg) == reactions(group.take(i), msg) + reaction_of(group[i], msg)
            + reactions(group.skip(i + 1), msg),
        group[i].id == msg.id ==> reaction_of(group[i], msg) == seq![
            Reaction { kind: group[i].kind, id: group[i].id, msg: msg.msg },
        ],
        group[i].id != msg.id ==> reaction_of(group[i], msg) == Seq::<Reaction>::empty(),
{
    let f = |c: ComponentView| c.reaction(msg);
    assert(group =~= group.take(i) + seq![group[i]] + group.skip(i + 1));
    lemma_reactions_concat(group.take(i) + seq![group[i]], group.skip(i + 1), msg);
    lemma_reactions_concat(group.take(i), seq![group[i]], msg);
    Seq::lemma_filter_map_singleton(group[i], f);
    assert(reactions(seq![group[i]], msg) == reaction_of(group[i], msg));
}

/// Fan-out follows registration order: when two components registered one
/// after the other both match, the first one's reaction comes first.
pub proof fn lemma_registration_order(
    group: Seq<ComponentView>,
    c1: ComponentView,
    c2: ComponentView,
    msg: ComponentMsg,
)
    requires
        c1.id == msg.id,
        c2.id == msg.id,
    ensures
        reactions(group.push(c1).push(c2), msg) == reactions(group, msg) + seq![
            Reaction { kind: c1.kind, id: c1.id, msg: msg.msg },
            Reaction { kind: c2.kind, id: c2.id, msg: msg.msg },
        ],
{
    let r1 = Reaction { kind: c1.kind, id: c1.id, msg: msg.msg };
    let r2 = Reaction { kind: c2.kind, id: c2.id, msg: msg.msg };
    assert(group.push(c1).drop_last() =~= group);
    assert(group.push(c1).last() == c1);
    assert(reactions(group.push(c1), msg) == reactions(group, msg) + seq![r1]);
    assert(group.push(c1).push(c2).drop_last() =~= group.push(c1));
    assert(group.push(c1).push(c2).last() == c2);
    assert(reactions(group.push(c1).push(c2), msg) == reactions(group.push(c1), msg) + seq![r2]);
    assert(reactions(group.push(c1).push(c2), msg) =~= reactions(group, msg) + seq![
        Reaction { kind: c1.kind, id: c1.id, msg: msg.msg },
        Reaction { kind: c2.kind, id: c2.id, msg: msg.msg },
    ]);
}

/// Registering N components under a tag grows its group by exactly N, every
/// one kept in order, duplicates included.
pub proof fn lemma_register_each_keeps_all(group: Seq<ComponentView>, added: Seq<ComponentView>)
    ensures
        register_each(group, added) == group + added,
        register_each(group, added).len() == group.len() + added.len(),
    decreases added.len(),
{
    if added.len() == 0 {
        assert(group + added =~= group);
    } else {
        lemma_register_each_keeps_all(group, added.drop_last());
        assert(group + added =~= (group + added.drop_last()).push(added.last()));
    }
}

/// Routes messages by tag to every component registered under it. Each tag
/// owns a group, kept in registration order; a tag nobody registered under
/// has an empty group.
pub struct ComponentRegistry {
    groups: Vec<Vec<AnyComponent>>,
}

impl ComponentRegistry {
    #[verifier::type_invariant]
    spec fn one_group_per_tag(self) -> bool {
        self.groups@.len() == TAG_COUNT
    }

    /// The components registered under `kind`, in registration order.
    pub closed spec fn group(self, kind: ComponentType) -> Seq<ComponentView> {
        self.groups@[tag_slot(kind)]@.map_values(|c: AnyComponent| c@)
    }

    /// An empty registry.
    pub fn new() -> (r: ComponentRegistry)
        ensures
            forall|t: ComponentType| #[trigger] r.group(t) == Seq::<ComponentView>::empty(),
    {
        let r = ComponentRegistry { groups: vec![Vec::new(), Vec::new()] };
        assert forall|t: ComponentType| #[trigger] r.group(t) == Seq::<ComponentView>::empty() by {
            assert(r.group(t) =~= Seq::<ComponentView>::empty());
        }
        r
    }

    /// Appends `component` to the group of `kind`; other groups stay as they
    /// were. Nothing is deduplicated.
    pub fn register(&mut self, kind: ComponentType, component: AnyComponent)
        ensures
            final(self).group(kind) == old(self).group(kind).push(component@),
            forall|t: ComponentType| t != kind ==> #[trigger] final(self).group(t) == old(self).group(t),
    {
        proof { use_type_invariant(&*self); }
        let k = kind.slot();
        self.groups[k].push(component);
        assert(self.group(kind) =~= old(self).group(kind).push(component@));
        assert forall|t: ComponentType| t != kind implies #[trigger] self.group(t) == old(self).group(t) by {
            assert(tag_slot(t) != tag_slot(kind));
        }
    }

    /// Delivers `msg` to every component registered under `kind`, once each
    /// and in registration order, and returns what they did, in that order.
    /// Components are left as they were; a tag with no registrations gives
    /// no reaction.
    pub fn trigger(&mut self, kind: ComponentType, msg: ComponentMsg) -> (r: Vec<Reaction>)
        ensures
            r@ == reactions(old(self).group(kind), msg),
            forall|t: ComponentType| #[trigger] final(self).group(t) == old(self).group(t),
    {
        proof { use_type_invariant(&*self); }
        let k = kind.slot();
        let n = self.groups[k].len();
        let mut out: Vec<Reaction> = Vec::new();
        let ghost group = self.group(kind);
        let mut i: usize = 0;
        while i < n
            invariant
                self.groups@.len() == TAG_COUNT,
                forall|j: int| 0 <= j < TAG_COUNT ==> #[trigger] self.groups@[j]@ == old(self).groups@[j]@,
                k as int == tag_slot(kind),
                n == self.groups@[k as int]@.len(),
                group == old(self).group(kind),
                i <= n,
                out@ == reactions(group.take(i as int), msg),
            decreases n - i,
        {
            let reaction = self.groups[k][i].update(&msg);
            proof {
                assert(self.groups@[k as int]@ =~= old(self).groups@[k as int]@);
                group.lemma_filter_map_take_succ(|c: ComponentView| c.reaction(msg), i as int);
            }
            match reaction {
                Some(x) => out.push(x),
                None => {},
            }
            i = i + 1;
        }
        proof {
            assert(group.take(n as int) =~= group);
            assert forall|t: ComponentType| #[trigger] self.group(t) == old(self).group(t) by {
                assert(self.groups@[tag_slot(t)]@ == old(self).groups@[tag_slot(t)]@);
            }
        }
        out
    }

    /// The number of components registered under `kind`.
    pub fn group_len(&self, kind: ComponentType) -> (r: usize)
        ensures
            r == self.group(kind).len(),
    {
        proof { use_type_invariant(self); }
        self.groups[kind.slot()].len()
    }

    /// The component at position `index` of the group of `kind`.
    pub fn component(&self, kind: ComponentType, index: usize) -> (r: &AnyComponent)
        requires
            index < self.group(kind).len(),
        ensures
            r@ == self.group(kind)[index as int],
    {
        proof { use_type_invariant(self); }
        &self.groups[kind.slot()][index]
    }
}

} // verus!
