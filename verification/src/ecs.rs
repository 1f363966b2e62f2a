//! The world of entities, as the rules see it.
//!
//! The world, its command buffer and its entity handles are `legion`'s. This
//! file declares them, names what the rules read from them, and holds the
//! calls into `legion`. Nothing in it is proved: the rest of the library is
//! proved from the contracts written here.
//!
//! A handle stands for an entity of the world only while that entity is
//! placed in it. A command buffer allots handles before its flush places
//! them, and a handle outlives the entity that is deleted. `legion` does not
//! tell such a handle from a placed one when it is asked for data, so the
//! contracts here speak of placed entities only.

use crate::combat::{Bullet, Cooldown, Firing, Hitpoints, Target};
use crate::gameworld::Selected;
use crate::geometry::{Rect2, Vector2};
use crate::units::{Destination, UnitPos, UnitRect};
use legion::prelude::{
    component, tag, CommandBuffer, Entity, EntityStore, IntoQuery, Read, Tagged, World,
};
use vstd::prelude::*;

verus! {

#[verifier::external_type_specification]
#[verifier::external_body]
pub struct ExWorld(World);

#[verifier::external_type_specification]
#[verifier::external_body]
pub struct ExCommandBuffer(CommandBuffer);

#[verifier::external_type_specification]
#[verifier::external_body]
pub struct ExEntity(Entity);

/// The kinds of data that an entity can carry.
#[derive(Clone, Copy, Debug, PartialEq, Eq)]
pub enum Kind {
    UnitPos,
    UnitRect,
    Destination,
    Target,
    Hitpoints,
    Cooldown,
    Bullet,
}

/// One piece of data of an entity, with its kind.
pub enum Datum {
    UnitPos(Vector2),
    UnitRect(Rect2),
    Destination(Vector2),
    Target(Entity),
    Hitpoints(u32),
    Cooldown(u32),
    Bullet(u32),
}

/// The marks that an entity can bear. A mark has no data.
#[derive(Clone, Copy, Debug, PartialEq, Eq)]
pub enum Mark {
    Selected,
    Firing,
}

/// A change to the world that waits in a command buffer for the next flush.
pub enum Command {
    /// Create the entity with these data.
    Insert(Entity, Seq<Datum>),
    /// Remove the entity and all it carries.
    Delete(Entity),
    /// Give the entity this datum, in place of one of the same kind.
    AddComponent(Entity, Datum),
    /// Take the datum of this kind from the entity.
    RemoveComponent(Entity, Kind),
    AddTag(Entity, Mark),
    RemoveTag(Entity, Mark),
}

/// A type of data that entities carry in the world. Each kind has one type.
pub(crate) trait Component: Copy + Send + Sync + 'static {
    spec fn kind() -> Kind;

    spec fn datum(self) -> Datum;
}

/// A type that marks entities in the world. Each mark has one type.
pub(crate) trait Tag: Clone + PartialEq + Send + Sync + 'static {
    spec fn mark() -> Mark;
}

/// The entities that are placed in the world, each with the data it carries.
/// A handle that a command buffer has allotted and not yet flushed is not
/// among them, nor is the handle of a deleted entity.
pub uninterp spec fn entities(world: World) -> Map<Entity, Map<Kind, Datum>>;

/// The data of `carried`, by entity and kind.
pub open spec fn data_of(carried: Map<Entity, Map<Kind, Datum>>) -> Map<(Entity, Kind), Datum> {
    Map::new(
        |key: (Entity, Kind)| carried.contains_key(key.0) && carried[key.0].contains_key(key.1),
        |key: (Entity, Kind)| carried[key.0][key.1],
    )
}

/// The data that the entities placed in the world carry, by entity and kind.
pub open spec fn components(world: World) -> Map<(Entity, Kind), Datum> {
    data_of(entities(world))
}

/// The commands that wait in the buffer, oldest first.
pub uninterp spec fn recorded(cmd: CommandBuffer) -> Seq<Command>;

/// The entities that bear `Selected`, in the order in which a query yields
/// them.
pub uninterp spec fn selected_units(world: World) -> Seq<Entity>;

/// The entities that carry a `UnitRect`, each with its rectangle, in the
/// order in which a query yields them.
pub uninterp spec fn unit_rects(world: World) -> Seq<(Entity, UnitRect)>;

/// As `unit_rects`, without the entities that bear `Selected`.
pub uninterp spec fn unselected_unit_rects(world: World) -> Seq<(Entity, UnitRect)>;

/// The entities that carry a `UnitPos`, a `UnitRect` and a `Destination`,
/// each with its position and destination, in the order in which a query
/// yields them.
pub uninterp spec fn moving_units(world: World) -> Seq<(Entity, UnitPos, Destination)>;

/// The entities that carry a `Target` and no `Cooldown`, each with its
/// target, in the order in which a query yields them.
pub uninterp spec fn armed_units(world: World) -> Seq<(Entity, Target)>;

/// The entities that carry a `Cooldown`, each with it, in the order in which
/// a query yields them.
pub uninterp spec fn cooling_units(world: World) -> Seq<(Entity, Cooldown)>;

/// The entities that bear `Firing` and carry a `UnitPos` and a `Target`, each
/// with both, in the order in which a query yields them.
pub uninterp spec fn firing_units(world: World) -> Seq<(Entity, UnitPos, Target)>;

/// The entities that carry a `Bullet`, each with it, in the order in which a
/// query yields them.
pub uninterp spec fn bullets(world: World) -> Seq<(Entity, Bullet)>;

/// Whether every query whose rows hold no datum of a kind in `kinds` yields
/// in `after` what it yields in `before`.
pub open spec fn rows_kept(before: World, after: World, kinds: Set<Kind>) -> bool {
    &&& selected_units(after) == selected_units(before)
    &&& !kinds.contains(Kind::UnitRect) ==> {
        &&& unit_rects(after) == unit_rects(before)
        &&& unselected_unit_rects(after) == unselected_unit_rects(before)
    }
    &&& !kinds.contains(Kind::UnitPos) && !kinds.contains(Kind::Destination) ==> moving_units(
        after,
    ) == moving_units(before)
    &&& !kinds.contains(Kind::Target) ==> armed_units(after) == armed_units(before)
    &&& !kinds.contains(Kind::Cooldown) ==> cooling_units(after) == cooling_units(before)
    &&& !kinds.contains(Kind::UnitPos) && !kinds.contains(Kind::Target) ==> firing_units(after)
        == firing_units(before)
    &&& !kinds.contains(Kind::Bullet) ==> bullets(after) == bullets(before)
}

/// `World::iter_entities`: the entities that are stored in the world, which
/// are the placed ones.
#[verifier::external_body]
pub(crate) fn find_entities(world: &World) -> (found: Vec<Entity>)
    ensures
        forall|entity: Entity|
            found@.contains(entity) <==> entities(*world).contains_key(entity),
{
    world.iter_entities().collect()
}

/// `PartialEq::eq` as `legion` derives it for `Entity`: two handles are equal
/// when their index and their version are, and a handle is no more than
/// these.
#[verifier::external_body]
pub(crate) fn same_entity(a: Entity, b: Entity) -> (same: bool)
    ensures
        same == (a == b),
{
    a == b
}

/// `Query::iter_entities` of the query for `Tagged<Selected>`: the entities
/// it yields, in its order. A query yields placed entities only; that holds
/// of every query below.
#[verifier::external_body]
pub(crate) fn find_selected_units(world: &World) -> (found: Vec<Entity>)
    ensures
        found@ == selected_units(*world),
        forall|i: int|
            0 <= i < found@.len() ==> entities(*world).contains_key(#[trigger] found@[i]),
{
    <Tagged<Selected>>::query().iter_entities(world).map(|(entity, _)| entity).collect()
}

/// `Query::iter_entities` of the query for `Read<UnitRect>`: what it yields,
/// in its order.
#[verifier::external_body]
pub(crate) fn find_unit_rects(world: &World) -> (found: Vec<(Entity, UnitRect)>)
    ensures
        found@ == unit_rects(*world),
        forall|i: int|
            0 <= i < found@.len() ==> entities(*world).contains_key(#[trigger] found@[i].0),
{
    <Read<UnitRect>>::query().iter_entities(world).map(|(entity, rect)| (entity, *rect)).collect()
}

/// `Query::iter_entities` of the query for `Read<UnitRect>` without the
/// entities tagged `Selected`: what it yields, in its order. None of them is
/// among those that the query for `Tagged<Selected>` yields.
#[verifier::external_body]
pub(crate) fn find_unselected_unit_rects(world: &World) -> (found: Vec<(Entity, UnitRect)>)
    ensures
        found@ == unselected_unit_rects(*world),
        forall|i: int|
            0 <= i < found@.len() ==> entities(*world).contains_key(#[trigger] found@[i].0),
        forall|i: int|
            0 <= i < found@.len() ==> !selected_units(*world).contains(#[trigger] found@[i].0),
{
    <Read<UnitRect>>::query()
        .filter(!tag::<Selected>())
        .iter_entities(world)
        .map(|(entity, rect)| (entity, *rect))
        .collect()
}

/// `Query::iter_entities` of the query for `UnitPos`, `UnitRect` and
/// `Destination`: the entities it yields, each with its position and its
/// destination, in its order.
#[verifier::external_body]
pub(crate) fn find_moving_units(world: &World) -> (found: Vec<(Entity, UnitPos, Destination)>)
    ensures
        found@ == moving_units(*world),
        forall|i: int|
            0 <= i < found@.len() ==> entities(*world).contains_key(#[trigger] found@[i].0),
{
    <(Read<UnitPos>, Read<UnitRect>, Read<Destination>)>::query()
        .iter_entities(world)
        .map(|(entity, (pos, _, dest))| (entity, *pos, *dest))
        .collect()
}

/// `Query::iter_entities` of the query for `Read<Target>` without the
/// entities that carry a `Cooldown`: what it yields, in its order.
#[verifier::external_body]
pub(crate) fn find_armed_units(world: &World) -> (found: Vec<(Entity, Target)>)
    ensures
        found@ == armed_units(*world),
        forall|i: int|
            0 <= i < found@.len() ==> entities(*world).contains_key(#[trigger] found@[i].0),
{
    <Read<Target>>::query()
        .filter(!component::<Cooldown>())
        .iter_entities(world)
        .map(|(entity, target)| (entity, *target))
        .collect()
}

/// `Query::iter_entities` of the query for `Read<Cooldown>`: what it yields,
/// in its order.
#[verifier::external_body]
pub(crate) fn find_cooling_units(world: &World) -> (found: Vec<(Entity, Cooldown)>)
    ensures
        found@ == cooling_units(*world),
        forall|i: int|
            0 <= i < found@.len() ==> entities(*world).contains_key(#[trigger] found@[i].0),
{
    <Read<Cooldown>>::query().iter_entities(world).map(|(entity, c)| (entity, *c)).collect()
}

/// `Query::iter_entities` of the query for `UnitPos` and `Target` on the
/// entities tagged `Firing`: what it yields, in its order.
#[verifier::external_body]
pub(crate) fn find_firing_units(world: &World) -> (found: Vec<(Entity, UnitPos, Target)>)
    ensures
        found@ == firing_units(*world),
        forall|i: int|
            0 <= i < found@.len() ==> entities(*world).contains_key(#[trigger] found@[i].0),
{
    <(Read<UnitPos>, Read<Target>)>::query()
        .filter(tag::<Firing>())
        .iter_entities(world)
        .map(|(entity, (pos, target))| (entity, *pos, *target))
        .collect()
}

/// `Query::iter_entities` of the query for `Read<Bullet>`: what it yields, in
/// its order.
#[verifier::external_body]
pub(crate) fn find_bullets(world: &World) -> (found: Vec<(Entity, Bullet)>)
    ensures
        found@ == bullets(*world),
        forall|i: int|
            0 <= i < found@.len() ==> entities(*world).contains_key(#[trigger] found@[i].0),
{
    <Read<Bullet>>::query().iter_entities(world).map(|(entity, b)| (entity, *b)).collect()
}

/// `EntityStore::get_component` on a `World`, for an entity that is placed
/// in it: the datum of type `C` that the entity carries, if it carries one.
/// For a handle that is not placed the call gives the data of another entity
/// or none, so nothing is said of it.
#[verifier::external_body]
pub(crate) fn get_component<C: Component>(world: &World, entity: Entity) -> (found: Option<C>)
    ensures
        entities(*world).contains_key(entity) ==> match found {
            Some(c) => entities(*world)[entity].contains_pair(C::kind(), c.datum()),
            None => !entities(*world)[entity].contains_key(C::kind()),
        },
{
    world.get_component::<C>(entity).map(|c| *c)
}

/// `EntityStore::get_component_mut` on a `World`, and an assignment through
/// the reference it gives, for an entity that is placed in the world. Where
/// the entity carries a datum of type `C`, that datum becomes `value`; where
/// it carries none, nothing changes. No entity comes, goes or moves: a query
/// whose rows hold no datum of this kind yields what it did. For a handle
/// that is not placed the call would write into another entity, so such a
/// handle is not to be passed. (`legion` numbers the writes of a process in a
/// `u64` and panics when the numbers run out; nothing here can rule that
/// out.)
#[verifier::external_body]
pub(crate) fn set_component<C: Component>(
    world: &mut World,
    entity: Entity,
    value: C,
) -> (done: bool)
    requires
        entities(*old(world)).contains_key(entity),
    ensures
        done == entities(*old(world))[entity].contains_key(C::kind()),
        entities(*final(world)) == if done {
            entities(*old(world)).insert(
                entity,
                entities(*old(world))[entity].insert(C::kind(), value.datum()),
            )
        } else {
            entities(*old(world))
        },
        rows_kept(*old(world), *final(world), set![C::kind()]),
{
    world.get_component_mut::<C>(entity).map(|mut c| *c = value).is_some()
}

/// `CommandBuffer::add_component`: the command is put behind those that wait.
#[verifier::external_body]
pub(crate) fn add_component<C: Component>(cmd: &mut CommandBuffer, entity: Entity, value: C)
    ensures
        recorded(*final(cmd)) == recorded(*old(cmd)).push(
            Command::AddComponent(entity, value.datum()),
        ),
{
    cmd.add_component(entity, value)
}

/// `CommandBuffer::remove_component`: the command is put behind those that
/// wait.
#[verifier::external_body]
pub(crate) fn remove_component<C: Component>(cmd: &mut CommandBuffer, entity: Entity)
    ensures
        recorded(*final(cmd)) == recorded(*old(cmd)).push(
            Command::RemoveComponent(entity, C::kind()),
        ),
{
    cmd.remove_component::<C>(entity)
}

/// `CommandBuffer::add_tag`: the command is put behind those that wait.
#[verifier::external_body]
pub(crate) fn add_tag<T: Tag>(cmd: &mut CommandBuffer, entity: Entity, tag: T)
    ensures
        recorded(*final(cmd)) == recorded(*old(cmd)).push(Command::AddTag(entity, T::mark())),
{
    cmd.add_tag(entity, tag)
}

/// `CommandBuffer::remove_tag`: the command is put behind those that wait.
#[verifier::external_body]
pub(crate) fn remove_tag<T: Tag>(cmd: &mut CommandBuffer, entity: Entity)
    ensures
        recorded(*final(cmd)) == recorded(*old(cmd)).push(Command::RemoveTag(entity, T::mark())),
{
    cmd.remove_tag::<T>(entity)
}

/// `CommandBuffer::insert` of one entity with a position, a rectangle and
/// hitpoints: the buffer allots the new entity's handle, which is returned,
/// and the command is put behind those that wait.
#[verifier::external_body]
pub(crate) fn insert_unit(
    cmd: &mut CommandBuffer,
    pos: UnitPos,
    rect: UnitRect,
    hitpoints: Hitpoints,
) -> (entity: Entity)
    ensures
        recorded(*final(cmd)) == recorded(*old(cmd)).push(
            Command::Insert(entity, seq![pos.datum(), rect.datum(), hitpoints.datum()]),
        ),
{
    cmd.insert((), vec![(pos, rect, hitpoints)])[0]
}

/// `CommandBuffer::insert` of one entity with a `Bullet`: the buffer allots
/// the new entity's handle, which is returned, and the command is put behind
/// those that wait.
#[verifier::external_body]
pub(crate) fn insert_bullet(cmd: &mut CommandBuffer, bullet: Bullet) -> (entity: Entity)
    ensures
        recorded(*final(cmd)) == recorded(*old(cmd)).push(
            Command::Insert(entity, seq![bullet.datum()]),
        ),
{
    cmd.insert((), vec![(bullet,)])[0]
}

/// `CommandBuffer::delete`: the command is put behind those that wait.
#[verifier::external_body]
pub(crate) fn delete(cmd: &mut CommandBuffer, entity: Entity)
    ensures
        recorded(*final(cmd)) == recorded(*old(cmd)).push(Command::Delete(entity)),
{
    cmd.delete(entity)
}

} // verus!
