//! Which handles stand for entities that are placed in the world.
//!
//! A handle from a query row is placed. A handle from anywhere else (from a
//! `Target`, from the host, from a command buffer that has not been flushed)
//! may not be, and is looked up in the list of the placed entities before any
//! datum is read or written through it.

use crate::ecs::{
    components, data_of, entities, find_entities, get_component, rows_kept, same_entity,
    set_component, Component, Datum, Kind,
};
use legion::prelude::{Entity, World};
use vstd::prelude::*;

verus! {

/// Whether `list` holds the entities that are placed in `world`, and no
/// other handle.
pub open spec fn lists_placed(list: Seq<Entity>, world: World) -> bool {
    forall|entity: Entity| list.contains(entity) <==> entities(world).contains_key(entity)
}

/// A datum is carried by a placed entity: a handle that is not placed has no
/// data.
pub proof fn lemma_data_is_of_placed(world: World, entity: Entity, kind: Kind)
    ensures
        components(world).contains_key((entity, kind)) ==> entities(world).contains_key(entity),
        entities(world).contains_key(entity) ==> (components(world).contains_key((entity, kind))
            <==> entities(world)[entity].contains_key(kind)),
        components(world).contains_key((entity, kind)) ==> components(world)[(entity, kind)]
            == entities(world)[entity][kind],
{
}

/// Giving a placed entity a new datum of a kind that it carries changes that
/// one datum and no other.
pub proof fn lemma_datum_replaced(
    carried: Map<Entity, Map<Kind, Datum>>,
    entity: Entity,
    kind: Kind,
    datum: Datum,
)
    requires
        carried.contains_key(entity),
        carried[entity].contains_key(kind),
    ensures
        data_of(carried.insert(entity, carried[entity].insert(kind, datum))) == data_of(
            carried,
        ).insert((entity, kind), datum),
{
    let after = carried.insert(entity, carried[entity].insert(kind, datum));
    assert(data_of(after) =~= data_of(carried).insert((entity, kind), datum));
}

/// The entities that are placed in the world.
pub fn placed_entities(world: &World) -> (placed: Vec<Entity>)
    ensures
        lists_placed(placed@, *world),
{
    find_entities(world)
}

/// Whether `entity` is one of `list`.
pub fn is_among(list: &Vec<Entity>, entity: Entity) -> (found: bool)
    ensures
        found == list@.contains(entity),
{
    let mut i: usize = 0;
    while i < list.len()
        invariant
            i <= list.len(),
            forall|j: int| 0 <= j < i ==> list@[j] != entity,
        decreases list.len() - i,
    {
        if same_entity(list[i], entity) {
            return true;
        }
        i += 1;
    }
    false
}

/// The datum of type `C` that `entity` carries in the world, if it is placed
/// there and carries one. `placed` lists the placed entities.
pub(crate) fn lookup<C: Component>(placed: &Vec<Entity>, world: &World, entity: Entity) -> (found:
    Option<C>)
    requires
        lists_placed(placed@, *world),
    ensures
        match found {
            Some(c) => components(*world).contains_pair((entity, C::kind()), c.datum()),
            None => !components(*world).contains_key((entity, C::kind())),
        },
{
    if is_among(placed, entity) {
        get_component(world, entity)
    } else {
        None
    }
}

/// Gives the placed entity `entity` the datum `value` in place of the one of
/// that type that it carries; where it carries none, nothing changes. The
/// same entities are placed afterwards.
pub(crate) fn store<C: Component>(world: &mut World, entity: Entity, value: C) -> (done: bool)
    requires
        entities(*old(world)).contains_key(entity),
    ensures
        done == components(*old(world)).contains_key((entity, C::kind())),
        components(*final(world)) == if done {
            components(*old(world)).insert((entity, C::kind()), value.datum())
        } else {
            components(*old(world))
        },
        rows_kept(*old(world), *final(world), set![C::kind()]),
        entities(*final(world)).dom() == entities(*old(world)).dom(),
{
    proof {
        if entities(*world)[entity].contains_key(C::kind()) {
            lemma_datum_replaced(entities(*world), entity, C::kind(), value.datum());
        }
    }
    let done = set_component(world, entity, value);
    proof {
        assert(entities(*world).dom() =~= entities(*old(world)).dom());
    }
    done
}

} // verus!
