use vstd::prelude::*;

use crate::skybox::SkyBox;
use crate::transform::Transform;

verus! {

/// A behaviour attached to an entity. It carries no state of its own yet:
/// `start` and `update` leave it as it is.
pub struct Component<M, V> {
    pub entity: Entity<M, V>,
}

impl<M, V> Component<M, V> {
    pub fn new(entity: Entity<M, V>) -> (c: Self)
        ensures
            c.entity == entity,
    {
        Component { entity }
    }

    pub fn start(&mut self)
        ensures
            *final(self) == *old(self),
    {
    }

    pub fn update(&mut self)
        ensures
            *final(self) == *old(self),
    {
    }
}

/// An object of the scene: an optional model of type `M`, placed by a
/// transform over vectors of type `V`, with its components.
pub struct Entity<M, V> {
    pub components: Vec<Component<M, V>>,
    pub transform: Transform<V>,
    pub model: Option<M>,
}

impl<M, V> Entity<M, V> {
    /// A new entity, with no components.
    pub fn new(model: Option<M>, transform: Transform<V>) -> (e: Self)
        ensures
            e.model == model,
            e.transform == transform,
            e.components@.len() == 0,
    {
        Entity { components: Vec::new(), transform, model }
    }

    /// The same entity: equal transform and model, and the same components
    /// in the same order.
    pub open spec fn same_as(&self, other: &Self) -> bool {
        &&& self.components@ == other.components@
        &&& self.transform == other.transform
        &&& self.model == other.model
    }

    /// Updates each component, in the order they were attached.
    pub fn update(&mut self)
        ensures
            final(self).same_as(old(self)),
    {
        let n: usize = self.components.len();
        let mut i: usize = 0;
        while i < n
            invariant
                n == self.components@.len(),
                i <= n,
                self.same_as(old(self)),
            decreases n - i,
        {
            self.components[i].update();
            assert(self.components@ =~= old(self).components@);
            i = i + 1;
        }
    }
}

/// The indices of the entities that are drawn, in the order they are drawn:
/// each entity that has a model, in insertion order. An entity without a
/// model is skipped.
pub open spec fn draw_order<M, V>(entities: Seq<Entity<M, V>>) -> Seq<usize>
    decreases entities.len(),
{
    if entities.len() == 0 {
        Seq::empty()
    } else {
        let n = entities.len() - 1;
        let earlier = draw_order(entities.take(n));
        if entities[n].model is Some {
            earlier.push(n as usize)
        } else {
            earlier
        }
    }
}

/// The draw order lists exactly the entities that have a model, each once, in
/// insertion order: every listed index names an entity with a model, the
/// indices strictly increase, and every entity with a model is listed.
pub proof fn lemma_draw_order<M, V>(entities: Seq<Entity<M, V>>)
    requires
        entities.len() <= usize::MAX,
    ensures
        forall|k: int|
            0 <= k < draw_order(entities).len() ==> {
                &&& (#[trigger] draw_order(entities)[k]) < entities.len()
                &&& entities[draw_order(entities)[k] as int].model is Some
            },
        forall|k: int, l: int|
            0 <= k < l < draw_order(entities).len() ==> (#[trigger] draw_order(entities)[k])
                < (#[trigger] draw_order(entities)[l]),
        forall|i: int|
            0 <= i < entities.len() && (#[trigger] entities[i]).model is Some ==> exists|k: int|
                0 <= k < draw_order(entities).len() && draw_order(entities)[k] == i,
    decreases entities.len(),
{
    if entities.len() > 0 {
        let n = entities.len() - 1;
        let earlier = entities.take(n);
        lemma_draw_order(earlier);
        let order = draw_order(entities);
        let prev = draw_order(earlier);
        assert forall|k: int| 0 <= k < prev.len() implies (#[trigger] prev[k]) < n by {
        }
        assert forall|i: int|
            0 <= i < entities.len() && (#[trigger] entities[i]).model is Some implies exists|k: int|
                0 <= k < order.len() && order[k] == i by {
            if i < n {
                assert(earlier[i] == entities[i]);
                let k = choose|k: int| 0 <= k < prev.len() && prev[k] == i;
                assert(order[k] == i);
            } else {
                assert(order[prev.len() as int] == n as usize);
            }
        }
        assert forall|k: int| 0 <= k < order.len() implies {
            &&& (#[trigger] order[k]) < entities.len()
            &&& entities[order[k] as int].model is Some
        } by {
            if k < prev.len() {
                assert(earlier[prev[k] as int] == entities[prev[k] as int]);
            }
        }
    }
}

/// A flat list of entities, drawn and updated in insertion order, and the
/// skybox behind them.
pub struct Scene<M, V> {
    pub entities: Vec<Entity<M, V>>,
    pub skybox: SkyBox,
}

impl<M, V> Scene<M, V> {
    /// An empty scene around a skybox.
    pub fn new(skybox: SkyBox) -> (s: Self)
        ensures
            s.entities@.len() == 0,
            s.skybox == skybox,
    {
        Scene { entities: Vec::new(), skybox }
    }

    /// The draw calls of one frame, as the indices of the entities to draw,
    /// in order: each entity with a model draws it once with its own
    /// transform; entities without a model are skipped.
    pub fn render(&self) -> (order: Vec<usize>)
        ensures
            order@ == draw_order(self.entities@),
            forall|k: int|
                0 <= k < order@.len() ==> {
                    &&& (#[trigger] order@[k]) < self.entities@.len()
                    &&& self.entities@[order@[k] as int].model is Some
                },
    {
        let mut order: Vec<usize> = Vec::new();
        let n: usize = self.entities.len();
        let mut i: usize = 0;
        while i < n
            invariant
                n == self.entities@.len(),
                i <= n,
                order@ == draw_order(self.entities@.take(i as int)),
            decreases n - i,
        {
            let ghost prefix = self.entities@.take(i as int + 1);
            assert(prefix.take(i as int) =~= self.entities@.take(i as int));
            if self.entities[i].model.is_some() {
                order.push(i);
            }
            i = i + 1;
        }
        assert(self.entities@.take(n as int) =~= self.entities@);
        proof {
            lemma_draw_order(self.entities@);
        }
        order
    }

    /// Updates each entity in insertion order, and within each its components
    /// in the order they were attached.
    pub fn update(&mut self)
        ensures
            final(self).entities@.len() == old(self).entities@.len(),
            forall|i: int|
                0 <= i < old(self).entities@.len() ==> #[trigger] final(self).entities@[i].same_as(
                    &old(self).entities@[i],
                ),
            final(self).skybox == old(self).skybox,
    {
        let n: usize = self.entities.len();
        let mut i: usize = 0;
        while i < n
            invariant
                n == self.entities@.len(),
                i <= n,
                n == old(self).entities@.len(),
                self.skybox == old(self).skybox,
                forall|j: int|
                    0 <= j < n ==> #[trigger] self.entities@[j].same_as(&old(self).entities@[j]),
            decreases n - i,
        {
            let ghost before = self.entities@;
            self.entities[i].update();
            assert forall|j: int| 0 <= j < n implies #[trigger] self.entities@[j].same_as(
                &old(self).entities@[j],
            ) by {
                assert(before[j].same_as(&old(self).entities@[j]));
                if j != i {
                    assert(self.entities@[j] == before[j]);
                } else {
                    assert(self.entities@[j].same_as(&before[j]));
                }
            }
            i = i + 1;
        }
    }
}

} // verus!
