//! Units: where they stand, how they are chosen, sent and moved.

use crate::combat::Hitpoints;
use crate::ecs::{
    add_component, add_tag, components, find_moving_units, find_selected_units, find_unit_rects,
    insert_unit, moving_units, recorded, remove_component, remove_tag, rows_kept, selected_units,
    unit_rects, Command, Component, Datum, Kind, Mark,
};
use crate::gameworld::Selected;
use crate::geometry::{near, within, Rect2, Size2, Vector2, UNIT};
use crate::input::{MouseButton, MousePos, PRIMARY_BUTTON, SECONDARY_BUTTON};
use crate::placement::{is_among, lookup, placed_entities, store};
use legion::prelude::{CommandBuffer, Entity, World};
use vstd::prelude::*;

verus! {

/// Width of a unit's rectangle.
pub const UNIT_WIDTH: i32 = 7 * UNIT;

/// Height of a unit's rectangle.
pub const UNIT_HEIGHT: i32 = 29 * UNIT;

/// Hitpoints of a unit that has just been created.
pub const UNIT_HITPOINTS: u32 = 10;

/// How far a unit moves in a second, in world units.
pub const UNIT_SPEED: i32 = 100;

/// A unit closer than this to its destination has arrived.
pub const ARRIVAL_RADIUS: i32 = 4 * UNIT;

/// Where a unit or a projectile stands.
#[derive(Clone, Copy, Debug, PartialEq, Eq)]
pub struct UnitPos(pub Vector2);

/// The rectangle around a unit's position in which the pointer hits it.
#[derive(Clone, Copy, Debug, PartialEq, Eq)]
pub struct UnitRect(pub Rect2);

/// Where a unit is moving to.
#[derive(Clone, Copy, Debug, PartialEq, Eq)]
pub struct Destination(pub Vector2);

impl Component for UnitPos {
    open spec fn kind() -> Kind {
        Kind::UnitPos
    }

    open spec fn datum(self) -> Datum {
        Datum::UnitPos(self.0)
    }
}

impl Component for UnitRect {
    open spec fn kind() -> Kind {
        Kind::UnitRect
    }

    open spec fn datum(self) -> Datum {
        Datum::UnitRect(self.0)
    }
}

impl Component for Destination {
    open spec fn kind() -> Kind {
        Kind::Destination
    }

    open spec fn datum(self) -> Datum {
        Datum::Destination(self.0)
    }
}

impl UnitRect {
    /// The rectangle of the given size centred on `pos`.
    pub fn new(pos: Vector2, width: i32, height: i32) -> (rect: UnitRect)
        ensures
            rect.0.size == (Size2 { width, height }),
            rect.0.origin == Rect2::origin_around(Size2 { width, height }, pos),
    {
        UnitRect(Rect2::centered(pos, Size2::new(width, height)))
    }

    /// Moves the rectangle so that `pos` is its centre; its size stays.
    pub fn update(&mut self, pos: Vector2)
        ensures
            final(self).0.size == old(self).0.size,
            final(self).0.origin == Rect2::origin_around(old(self).0.size, pos),
    {
        self.0 = Rect2::centered(pos, self.0.size);
    }
}

/// Whether `i` is the place of the first rectangle of `rects` that holds
/// `point`.
pub open spec fn is_first_hit(rects: Seq<(Entity, UnitRect)>, point: Vector2, i: int) -> bool {
    &&& 0 <= i < rects.len()
    &&& rects[i].1.0.holds(point)
    &&& forall|j: int| 0 <= j < i ==> !(#[trigger] rects[j]).1.0.holds(point)
}

/// Whether some rectangle of `rects` holds `point`.
pub open spec fn hits_any(rects: Seq<(Entity, UnitRect)>, point: Vector2) -> bool {
    exists|i: int| 0 <= i < rects.len() && (#[trigger] rects[i]).1.0.holds(point)
}

/// The entity of the first rectangle of `rects` that holds `point`.
pub open spec fn first_hit(rects: Seq<(Entity, UnitRect)>, point: Vector2) -> Option<Entity> {
    if exists|i: int| is_first_hit(rects, point, i) {
        Some(rects[choose|i: int| is_first_hit(rects, point, i)].0)
    } else {
        None
    }
}

/// The unit that a click selects: none while a unit is selected or no press
/// of the primary button waits, else the first unit under the cursor.
pub open spec fn selection(
    selected: Seq<Entity>,
    rects: Seq<(Entity, UnitRect)>,
    button: MouseButton,
    cursor: Vector2,
) -> Option<Entity> {
    if selected.len() == 0 && button.pressed(PRIMARY_BUTTON) {
        first_hit(rects, cursor)
    } else {
        None
    }
}

/// Whether a click sends the selected units on their way: a press of the
/// primary button waits, and the cursor is on no unit.
pub open spec fn order_accepted(
    rects: Seq<(Entity, UnitRect)>,
    button: MouseButton,
    cursor: Vector2,
) -> bool {
    button.pressed(PRIMARY_BUTTON) && !hits_any(rects, cursor)
}

/// What sending the selected units to `cursor` records: for each of them, in
/// their order, its destination and then the loss of its mark.
pub open spec fn marching_orders(selected: Seq<Entity>, cursor: Vector2) -> Seq<Command> {
    Seq::new(
        2 * selected.len(),
        |i: int|
            if i % 2 == 0 {
                Command::AddComponent(selected[i / 2], Datum::Destination(cursor))
            } else {
                Command::RemoveTag(selected[i / 2], Mark::Selected)
            },
    )
}

/// The way that a unit has before it.
#[derive(Clone, Copy, Debug, PartialEq, Eq)]
pub struct Course {
    pub entity: Entity,
    /// From the unit to its destination, along x.
    pub dx: i64,
    /// From the unit to its destination, along y.
    pub dy: i64,
}

/// The course of the unit `row.0`, which stands at `row.1` and goes to `row.2`.
pub open spec fn course_of(row: (Entity, UnitPos, Destination)) -> Course {
    Course {
        entity: row.0,
        dx: (row.2.0.x - row.1.0.x) as i64,
        dy: (row.2.0.y - row.1.0.y) as i64,
    }
}

/// The data of the world once the unit `entity` stands at `position`: its
/// position is `position` and its rectangle is centred there, as far as it
/// carries them.
pub open spec fn moved(
    data: Map<(Entity, Kind), Datum>,
    entity: Entity,
    position: Vector2,
) -> Map<(Entity, Kind), Datum> {
    let placed = if data.contains_key((entity, Kind::UnitPos)) {
        data.insert((entity, Kind::UnitPos), Datum::UnitPos(position))
    } else {
        data
    };
    match data.get((entity, Kind::UnitRect)) {
        Some(Datum::UnitRect(rect)) => placed.insert(
            (entity, Kind::UnitRect),
            Datum::UnitRect(
                Rect2 { origin: Rect2::origin_around(rect.size, position), size: rect.size },
            ),
        ),
        _ => placed,
    }
}

/// Whether the unit `entity`, standing at `position`, has reached the
/// destination that it carries.
pub open spec fn arrived(
    data: Map<(Entity, Kind), Datum>,
    entity: Entity,
    position: Vector2,
) -> bool {
    match data.get((entity, Kind::Destination)) {
        Some(Datum::Destination(goal)) => near(goal, position, ARRIVAL_RADIUS),
        _ => false,
    }
}

/// What a new unit at `pos` carries.
pub open spec fn unit_data(pos: Vector2) -> Seq<Datum> {
    seq![
        Datum::UnitPos(pos),
        Datum::UnitRect(
            Rect2 {
                origin: Rect2::origin_around(Size2 { width: UNIT_WIDTH, height: UNIT_HEIGHT }, pos),
                size: Size2 { width: UNIT_WIDTH, height: UNIT_HEIGHT },
            },
        ),
        Datum::Hitpoints(UNIT_HITPOINTS),
    ]
}

/// A first hit is the only one, and there is one exactly when some rectangle
/// holds the point.
pub proof fn lemma_first_hit(rects: Seq<(Entity, UnitRect)>, point: Vector2)
    ensures
        first_hit(rects, point) is Some <==> hits_any(rects, point),
        forall|i: int|
            is_first_hit(rects, point, i) ==> first_hit(rects, point) == Some(rects[i].0),
{
    if hits_any(rects, point) {
        let k = choose|i: int| 0 <= i < rects.len() && (#[trigger] rects[i]).1.0.holds(point);
        lemma_hit_before(rects, point, k);
    }
    assert forall|i: int| is_first_hit(rects, point, i) implies first_hit(rects, point) == Some(
        rects[i].0,
    ) by {
        let c = choose|c: int| is_first_hit(rects, point, c);
        if c < i {
            assert(rects[c].1.0.holds(point));
        } else if i < c {
            assert(rects[i].1.0.holds(point));
        }
    }
}

/// A click selects a unit only where no unit is selected, a press of the
/// primary button waits and the cursor is in that unit's rectangle and in
/// none before it; and where all that holds of a unit, the click selects it.
pub proof fn lemma_selection_exact(
    selected: Seq<Entity>,
    rects: Seq<(Entity, UnitRect)>,
    button: MouseButton,
    cursor: Vector2,
    unit: Entity,
)
    ensures
        selection(selected, rects, button, cursor) == Some(unit) <==> {
            &&& selected.len() == 0
            &&& button.pressed(PRIMARY_BUTTON)
            &&& exists|i: int| is_first_hit(rects, cursor, i) && rects[i].0 == unit
        },
{
    lemma_first_hit(rects, cursor);
    if selection(selected, rects, button, cursor) == Some(unit) {
        let i = choose|i: int| is_first_hit(rects, cursor, i);
        assert(is_first_hit(rects, cursor, i) && rects[i].0 == unit);
    }
}

/// Where the rectangle at `k` holds the point, a first hit exists at or
/// before `k`.
proof fn lemma_hit_before(rects: Seq<(Entity, UnitRect)>, point: Vector2, k: int)
    requires
        0 <= k < rects.len(),
        rects[k].1.0.holds(point),
    ensures
        exists|i: int| is_first_hit(rects, point, i),
    decreases k,
{
    if exists|j: int| 0 <= j < k && (#[trigger] rects[j]).1.0.holds(point) {
        let j = choose|j: int| 0 <= j < k && (#[trigger] rects[j]).1.0.holds(point);
        lemma_hit_before(rects, point, j);
    } else {
        assert(is_first_hit(rects, point, k));
    }
}

/// The entity of the first rectangle of `rects` that holds `point`.
pub fn find_hit(rects: &Vec<(Entity, UnitRect)>, point: Vector2) -> (hit: Option<Entity>)
    ensures
        hit == first_hit(rects@, point),
        hit is Some <==> hits_any(rects@, point),
{
    proof {
        lemma_first_hit(rects@, point);
    }
    let mut i: usize = 0;
    while i < rects.len()
        invariant
            i <= rects.len(),
            forall|j: int| 0 <= j < i ==> !(#[trigger] rects@[j]).1.0.holds(point),
            forall|k: int|
                is_first_hit(rects@, point, k) ==> first_hit(rects@, point) == Some(rects@[k].0),
        decreases rects.len() - i,
    {
        let row: (Entity, UnitRect) = rects[i];
        if row.1.0.contains(point) {
            assert(is_first_hit(rects@, point, i as int));
            return Some(row.0);
        }
        i += 1;
    }
    None
}

/// The unit that a click selects, given the units that are selected and the
/// rectangles of all units.
pub fn choose_unit(
    selected: &Vec<Entity>,
    rects: &Vec<(Entity, UnitRect)>,
    button: &MouseButton,
    cursor: Vector2,
) -> (chosen: Option<Entity>)
    ensures
        chosen == selection(selected@, rects@, *button, cursor),
{
    if selected.len() == 0 && button.button_pressed(PRIMARY_BUTTON) {
        find_hit(rects, cursor)
    } else {
        None
    }
}

/// Whether a click sends the selected units on their way, given the
/// rectangles of all units.
pub fn accepts_order(
    rects: &Vec<(Entity, UnitRect)>,
    button: &MouseButton,
    cursor: Vector2,
) -> (yes: bool)
    ensures
        yes == order_accepted(rects@, *button, cursor),
{
    button.button_pressed(PRIMARY_BUTTON) && find_hit(rects, cursor).is_none()
}

/// The course of a unit that stands at `pos` and goes to `dest`.
pub fn course(entity: Entity, pos: UnitPos, dest: Destination) -> (c: Course)
    ensures
        c == course_of((entity, pos, dest)),
{
    Course {
        entity,
        dx: dest.0.x as i64 - pos.0.x as i64,
        dy: dest.0.y as i64 - pos.0.y as i64,
    }
}

/// What a new unit at `pos` carries: its position, its rectangle around it,
/// and full hitpoints.
pub fn new_unit(pos: Vector2) -> (unit: (UnitPos, UnitRect, Hitpoints))
    ensures
        unit.0 == UnitPos(pos),
        unit.1.0.size == (Size2 { width: UNIT_WIDTH, height: UNIT_HEIGHT }),
        unit.1.0.origin == Rect2::origin_around(unit.1.0.size, pos),
        unit.2 == Hitpoints(UNIT_HITPOINTS),
{
    (UnitPos(pos), UnitRect::new(pos, UNIT_WIDTH, UNIT_HEIGHT), Hitpoints(UNIT_HITPOINTS))
}

/// Selects the first unit under the cursor, where no unit is selected and a
/// press of the primary button waits. The press is then handled.
pub fn select_unit(
    cmd: &mut CommandBuffer,
    world: &World,
    mouse_btn: &mut MouseButton,
    mouse_pos: &MousePos,
)
    ensures
        match selection(selected_units(*world), unit_rects(*world), *old(mouse_btn), mouse_pos@) {
            Some(unit) => {
                &&& recorded(*final(cmd)) == recorded(*old(cmd)).push(
                    Command::AddTag(unit, Mark::Selected),
                )
                &&& *final(mouse_btn) == MouseButton::Empty
            },
            None => {
                &&& recorded(*final(cmd)) == recorded(*old(cmd))
                &&& *final(mouse_btn) == *old(mouse_btn)
            },
        },
{
    if !mouse_btn.button_pressed(PRIMARY_BUTTON) {
        return;
    }
    let selected = find_selected_units(world);
    let rects = find_unit_rects(world);
    match choose_unit(&selected, &rects, mouse_btn, mouse_pos.global()) {
        Some(unit) => {
            add_tag(cmd, unit, Selected);
            mouse_btn.consume();
        },
        None => {},
    }
}

/// Sends every selected unit to the cursor and takes its mark, where a press
/// of the primary button waits and the cursor is on no unit. The press is
/// then handled.
pub fn set_unit_destination(
    cmd: &mut CommandBuffer,
    world: &World,
    mouse_btn: &mut MouseButton,
    mouse_pos: &MousePos,
)
    ensures
        order_accepted(unit_rects(*world), *old(mouse_btn), mouse_pos@) ==> {
            &&& recorded(*final(cmd)) == recorded(*old(cmd)) + marching_orders(
                selected_units(*world),
                mouse_pos@,
            )
            &&& *final(mouse_btn) == MouseButton::Empty
        },
        !order_accepted(unit_rects(*world), *old(mouse_btn), mouse_pos@) ==> {
            &&& recorded(*final(cmd)) == recorded(*old(cmd))
            &&& *final(mouse_btn) == *old(mouse_btn)
        },
{
    if !mouse_btn.button_pressed(PRIMARY_BUTTON) {
        return;
    }
    let rects = find_unit_rects(world);
    let cursor = mouse_pos.global();
    if !accepts_order(&rects, mouse_btn, cursor) {
        return;
    }
    let selected = find_selected_units(world);
    let mut i: usize = 0;
    while i < selected.len()
        invariant
            i <= selected.len(),
            recorded(*cmd) == recorded(*old(cmd)) + marching_orders(
                selected@.take(i as int),
                cursor,
            ),
        decreases selected.len() - i,
    {
        let unit = selected[i];
        add_component(cmd, unit, Destination(cursor));
        remove_tag::<Selected>(cmd, unit);
        proof {
            let before = marching_orders(selected@.take(i as int), cursor);
            let after = marching_orders(selected@.take(i as int + 1), cursor);
            assert(after =~= before.push(
                Command::AddComponent(unit, Datum::Destination(cursor)),
            ).push(Command::RemoveTag(unit, Mark::Selected)));
            assert(recorded(*cmd) =~= recorded(*old(cmd)) + after);
        }
        i += 1;
    }
    assert(selected@.take(selected.len() as int) =~= selected@);
    mouse_btn.consume();
}

/// The course of every unit that is on its way, in the order of the world.
/// The host moves each body along its course at `UNIT_SPEED` and reports
/// where it came to rest with `unit_moved`.
pub fn move_units(world: &World) -> (courses: Vec<Course>)
    ensures
        courses@ == moving_units(*world).map_values(
            |row: (Entity, UnitPos, Destination)| course_of(row),
        ),
{
    let moving = find_moving_units(world);
    let mut courses: Vec<Course> = Vec::new();
    let mut i: usize = 0;
    while i < moving.len()
        invariant
            i <= moving.len(),
            courses@ == moving@.take(i as int).map_values(
                |row: (Entity, UnitPos, Destination)| course_of(row),
            ),
        decreases moving.len() - i,
    {
        let row: (Entity, UnitPos, Destination) = moving[i];
        courses.push(course(row.0, row.1, row.2));
        assert(moving@.take(i as int + 1).map_values(
            |row: (Entity, UnitPos, Destination)| course_of(row),
        ) =~= moving@.take(i as int).map_values(
            |row: (Entity, UnitPos, Destination)| course_of(row),
        ).push(course_of(row)));
        i += 1;
    }
    assert(moving@.take(moving.len() as int) =~= moving@);
    courses
}

/// Takes in where the body of the unit `entity` came to rest: the unit's
/// position is `position`, its rectangle is centred there, and where it is
/// closer than `ARRIVAL_RADIUS` to its destination, the destination is taken
/// from it. A handle that is not placed in the world has no data, and
/// nothing is done for it.
pub fn unit_moved(cmd: &mut CommandBuffer, world: &mut World, entity: Entity, position: Vector2)
    ensures
        components(*final(world)) == moved(components(*old(world)), entity, position),
        recorded(*final(cmd)) == if arrived(components(*old(world)), entity, position) {
            recorded(*old(cmd)).push(Command::RemoveComponent(entity, Kind::Destination))
        } else {
            recorded(*old(cmd))
        },
        rows_kept(*old(world), *final(world), set![Kind::UnitPos, Kind::UnitRect]),
{
    let placed = placed_entities(world);
    let rect: Option<UnitRect> = lookup(&placed, world, entity);
    let goal: Option<Destination> = lookup(&placed, world, entity);
    if is_among(&placed, entity) {
        store(world, entity, UnitPos(position));
        match rect {
            Some(mut rect) => {
                rect.update(position);
                store(world, entity, rect);
            },
            None => {},
        }
    }
    match goal {
        Some(goal) => {
            if within(goal.0, position, ARRIVAL_RADIUS) {
                remove_component::<Destination>(cmd, entity);
            }
        },
        None => {},
    }
}

/// Creates a unit at the cursor, where a press of the secondary button waits.
/// The press is then handled, and the new entity is returned, for the host to
/// give it a body.
pub fn spawn_unit(
    cmd: &mut CommandBuffer,
    mouse_btn: &mut MouseButton,
    mouse_pos: &MousePos,
) -> (spawned: Option<Entity>)
    ensures
        old(mouse_btn).pressed(SECONDARY_BUTTON) ==> {
            &&& spawned is Some
            &&& recorded(*final(cmd)) == recorded(*old(cmd)).push(
                Command::Insert(spawned->0, unit_data(mouse_pos@)),
            )
            &&& *final(mouse_btn) == MouseButton::Empty
        },
        !old(mouse_btn).pressed(SECONDARY_BUTTON) ==> {
            &&& spawned is None
            &&& recorded(*final(cmd)) == recorded(*old(cmd))
            &&& *final(mouse_btn) == *old(mouse_btn)
        },
{
    if !mouse_btn.button_pressed(SECONDARY_BUTTON) {
        return None;
    }
    mouse_btn.consume();
    let unit = new_unit(mouse_pos.global());
    let entity = insert_unit(cmd, unit.0, unit.1, unit.2);
    assert(seq![unit.0.datum(), unit.1.datum(), unit.2.datum()] =~= unit_data(mouse_pos@));
    Some(entity)
}

} // verus!
