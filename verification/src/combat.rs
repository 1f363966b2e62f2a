//! Combat: targets, blows, the pause between blows, and the projectiles that
//! show them.

use crate::ecs::{
    add_component, add_tag, armed_units, bullets, components, cooling_units, delete,
    find_armed_units, find_bullets, find_cooling_units, find_firing_units, find_selected_units,
    entities, find_unselected_unit_rects, firing_units, insert_bullet, recorded,
    remove_component, remove_tag, rows_kept, selected_units, unselected_unit_rects, Command,
    Component, Datum, Kind, Mark, Tag,
};
use crate::gameworld::Delta;
use crate::geometry::Vector2;
use crate::input::{MouseButton, MousePos, PRIMARY_BUTTON};
use crate::placement::{lemma_data_is_of_placed, lists_placed, lookup, placed_entities, store};
use crate::units::{find_hit, first_hit, is_first_hit, UnitPos, UnitRect};
use legion::prelude::{CommandBuffer, Entity, World};
use vstd::prelude::*;

verus! {

/// The pause after a blow, in microseconds: one second.
pub const COOLDOWN: u32 = 1_000_000;

/// The opacity of a projectile that has just been fired, in millionths.
pub const OPAQUE: u32 = 1_000_000;

/// How many millionths of its opacity a projectile loses in a microsecond:
/// four times the whole in a second.
pub const FADE_RATE: u32 = 4;

/// Marks an attacker whose blow has yet to be shown by a projectile.
#[derive(Clone, Copy, Debug, PartialEq, Eq)]
pub struct Firing;

/// The entity that a unit attacks.
#[derive(Clone, Copy, Debug, PartialEq, Eq)]
pub struct Target(pub Entity);

/// How many blows a unit can still take.
#[derive(Clone, Copy, Debug, PartialEq, Eq)]
pub struct Hitpoints(pub u32);

/// A projectile, which holds the opacity that is left to it, in millionths.
#[derive(Clone, Copy, Debug, PartialEq, Eq)]
pub struct Bullet(pub u32);

/// The time that a unit has to wait before its next blow, in microseconds.
#[derive(Clone, Copy, Debug, PartialEq, Eq)]
pub struct Cooldown(pub u32);

impl Tag for Firing {
    open spec fn mark() -> Mark {
        Mark::Firing
    }
}

impl Component for Target {
    open spec fn kind() -> Kind {
        Kind::Target
    }

    open spec fn datum(self) -> Datum {
        Datum::Target(self.0)
    }
}

impl Component for Hitpoints {
    open spec fn kind() -> Kind {
        Kind::Hitpoints
    }

    open spec fn datum(self) -> Datum {
        Datum::Hitpoints(self.0)
    }
}

impl Component for Bullet {
    open spec fn kind() -> Kind {
        Kind::Bullet
    }

    open spec fn datum(self) -> Datum {
        Datum::Bullet(self.0)
    }
}

impl Component for Cooldown {
    open spec fn kind() -> Kind {
        Kind::Cooldown
    }

    open spec fn datum(self) -> Datum {
        Datum::Cooldown(self.0)
    }
}

/// What waits in a command buffer, together with the data of the world.
pub type State = (Seq<Command>, Map<(Entity, Kind), Datum>);

/// A projectile that has been fired, for the host to show: the entity that
/// stands for it and the two ends of its ray.
#[derive(Clone, Copy, Debug, PartialEq, Eq)]
pub struct Shot {
    pub bullet: Entity,
    pub from: Vector2,
    pub to: Vector2,
}

/// The attacker and the target that a click joins: none unless a press of the
/// primary button waits and a unit is selected, else the first selected unit
/// and the first other unit under the cursor.
pub open spec fn targeting(
    selected: Seq<Entity>,
    others: Seq<(Entity, UnitRect)>,
    button: MouseButton,
    cursor: Vector2,
) -> Option<(Entity, Entity)> {
    if button.pressed(PRIMARY_BUTTON) && selected.len() > 0 {
        match first_hit(others, cursor) {
            Some(target) => Some((selected[0], target)),
            None => None,
        }
    } else {
        None
    }
}

/// The hitpoints that a blow leaves.
pub open spec fn after_blow(hitpoints: u32) -> u32 {
    if hitpoints > 0 {
        (hitpoints - 1) as u32
    } else {
        0
    }
}

/// The cooldown that is left of `cooldown` after `delta` microseconds.
pub open spec fn after_wait(cooldown: u32, delta: u32) -> u32 {
    if cooldown > delta {
        (cooldown - delta) as u32
    } else {
        0
    }
}

/// The opacity that is left of `opacity` after `delta` microseconds.
pub open spec fn after_fade(opacity: u32, delta: u32) -> u32 {
    if opacity > FADE_RATE * delta {
        (opacity - FADE_RATE * delta) as u32
    } else {
        0
    }
}

/// The microseconds that the ticks `deltas` take together.
pub open spec fn elapsed(deltas: Seq<u32>) -> int
    decreases deltas.len(),
{
    if deltas.len() == 0 {
        0
    } else {
        elapsed(deltas.drop_last()) + deltas.last()
    }
}

/// One blow of `attacker` on `target`. A target without hitpoints is left
/// alone, and so is a handle that is not placed in the world, which has no
/// data. Else it loses one; if none is left, the attacker loses its target
/// and the target is deleted; if some are left, the attacker is marked as
/// firing and has to wait.
pub open spec fn blow(state: State, attacker: Entity, target: Entity) -> State {
    match state.1.get((target, Kind::Hitpoints)) {
        Some(Datum::Hitpoints(hitpoints)) => {
            let left = after_blow(hitpoints);
            let data = state.1.insert((target, Kind::Hitpoints), Datum::Hitpoints(left));
            if left == 0 {
                (
                    state.0.push(Command::RemoveComponent(attacker, Kind::Target)).push(
                        Command::Delete(target),
                    ),
                    data,
                )
            } else {
                (
                    state.0.push(Command::AddTag(attacker, Mark::Firing)).push(
                        Command::AddComponent(attacker, Datum::Cooldown(COOLDOWN)),
                    ),
                    data,
                )
            }
        },
        _ => state,
    }
}

/// `delta` microseconds pass for the unit `entity`, which had to wait for
/// `cooldown`: it carries what is left, and where nothing is left, the
/// cooldown is taken from it.
pub open spec fn wait(state: State, entity: Entity, cooldown: u32, delta: u32) -> State {
    let left = after_wait(cooldown, delta);
    (
        if left == 0 {
            state.0.push(Command::RemoveComponent(entity, Kind::Cooldown))
        } else {
            state.0
        },
        if state.1.contains_key((entity, Kind::Cooldown)) {
            state.1.insert((entity, Kind::Cooldown), Datum::Cooldown(left))
        } else {
            state.1
        },
    )
}

/// `delta` microseconds pass for the projectile `entity` of opacity
/// `opacity`: it holds what is left, and where nothing is left, it is
/// deleted.
pub open spec fn fade(state: State, entity: Entity, opacity: u32, delta: u32) -> State {
    let left = after_fade(opacity, delta);
    (
        if left == 0 {
            state.0.push(Command::Delete(entity))
        } else {
            state.0
        },
        if state.1.contains_key((entity, Kind::Bullet)) {
            state.1.insert((entity, Kind::Bullet), Datum::Bullet(left))
        } else {
            state.1
        },
    )
}

/// The two ends of the ray from the attacker of `row` to its target, where
/// the target is placed in the world and has a position.
pub open spec fn aim(
    data: Map<(Entity, Kind), Datum>,
    row: (Entity, UnitPos, Target),
) -> Option<(Vector2, Vector2)> {
    match data.get((row.2.0, Kind::UnitPos)) {
        Some(Datum::UnitPos(to)) => Some((row.1.0, to)),
        _ => None,
    }
}

/// What the firing units `rows` record and the shots they make, where the
/// new projectiles are `bullets`: each unit loses its mark, and each whose
/// target has a position is followed by a new opaque projectile, the next of
/// `bullets`.
pub open spec fn volley(
    rows: Seq<(Entity, UnitPos, Target)>,
    data: Map<(Entity, Kind), Datum>,
    bullets: Seq<Entity>,
) -> (Seq<Command>, Seq<Shot>)
    decreases rows.len(),
{
    if rows.len() == 0 {
        (Seq::empty(), Seq::empty())
    } else {
        let row = rows.last();
        match aim(data, row) {
            Some((from, to)) => {
                let before = volley(rows.drop_last(), data, bullets.drop_last());
                (
                    before.0.push(Command::RemoveTag(row.0, Mark::Firing)).push(
                        Command::Insert(bullets.last(), seq![Datum::Bullet(OPAQUE)]),
                    ),
                    before.1.push(Shot { bullet: bullets.last(), from, to }),
                )
            },
            None => {
                let before = volley(rows.drop_last(), data, bullets);
                (before.0.push(Command::RemoveTag(row.0, Mark::Firing)), before.1)
            },
        }
    }
}

/// Over any run of ticks a cooldown counts down by the time that has passed
/// and stops at zero: it is never left below zero.
pub proof fn lemma_cooldown_runs_out(cooldown: u32, deltas: Seq<u32>)
    ensures
        deltas.fold_left(cooldown, |left: u32, delta: u32| after_wait(left, delta)) == (if cooldown
            > elapsed(deltas) {
            cooldown - elapsed(deltas)
        } else {
            0
        }),
        elapsed(deltas) >= 0,
    decreases deltas.len(),
{
    if deltas.len() > 0 {
        lemma_cooldown_runs_out(cooldown, deltas.drop_last());
    }
}

/// Over any run of ticks a projectile loses `FADE_RATE` millionths of
/// opacity for each microsecond that has passed, until none is left; from the
/// first tick that leaves none, none is left.
pub proof fn lemma_opacity_runs_out(opacity: u32, deltas: Seq<u32>)
    ensures
        deltas.fold_left(opacity, |left: u32, delta: u32| after_fade(left, delta)) == (if opacity
            > FADE_RATE * elapsed(deltas) {
            opacity - FADE_RATE * elapsed(deltas)
        } else {
            0
        }),
        elapsed(deltas) >= 0,
    decreases deltas.len(),
{
    if deltas.len() > 0 {
        lemma_opacity_runs_out(opacity, deltas.drop_last());
        let before = elapsed(deltas.drop_last());
        let last = deltas.last();
        assert(FADE_RATE * (before + last) == FADE_RATE * before + FADE_RATE * last)
            by (nonlinear_arith);
    }
}

/// Every firing unit loses its mark, whether a projectile is made for it or
/// not: the command that takes it is among those that the volley records.
pub proof fn lemma_volley_clears_marks(
    rows: Seq<(Entity, UnitPos, Target)>,
    data: Map<(Entity, Kind), Datum>,
    bullets: Seq<Entity>,
    i: int,
)
    requires
        0 <= i < rows.len(),
    ensures
        volley(rows, data, bullets).0.contains(Command::RemoveTag(rows[i].0, Mark::Firing)),
    decreases rows.len(),
{
    let row = rows.last();
    let all = volley(rows, data, bullets).0;
    let mark = Command::RemoveTag(rows[i].0, Mark::Firing);
    match aim(data, row) {
        Some(_) => {
            let before = volley(rows.drop_last(), data, bullets.drop_last()).0;
            if i < rows.len() - 1 {
                lemma_volley_clears_marks(rows.drop_last(), data, bullets.drop_last(), i);
                let k = choose|k: int| 0 <= k < before.len() && before[k] == mark;
                assert(all[k] == mark);
            } else {
                assert(all[before.len() as int] == mark);
            }
        },
        None => {
            let before = volley(rows.drop_last(), data, bullets).0;
            if i < rows.len() - 1 {
                lemma_volley_clears_marks(rows.drop_last(), data, bullets, i);
                let k = choose|k: int| 0 <= k < before.len() && before[k] == mark;
                assert(all[k] == mark);
            } else {
                assert(all[before.len() as int] == mark);
            }
        },
    }
}

/// A volley makes one shot for each firing unit whose target has a position,
/// and no other: as many shots as there are such units.
pub proof fn lemma_volley_counts(
    rows: Seq<(Entity, UnitPos, Target)>,
    data: Map<(Entity, Kind), Datum>,
    bullets: Seq<Entity>,
)
    ensures
        volley(rows, data, bullets).1.len() == rows.filter(
            |row: (Entity, UnitPos, Target)| aim(data, row) is Some,
        ).len(),
    decreases rows.len(),
{
    let aimed = |row: (Entity, UnitPos, Target)| aim(data, row) is Some;
    reveal(Seq::filter);
    if rows.len() > 0 {
        match aim(data, rows.last()) {
            Some(_) => lemma_volley_counts(rows.drop_last(), data, bullets.drop_last()),
            None => lemma_volley_counts(rows.drop_last(), data, bullets),
        }
    }
}

/// The attacker and the target that a click joins, given the selected units
/// and the rectangles of the others.
pub fn choose_target(
    selected: &Vec<Entity>,
    others: &Vec<(Entity, UnitRect)>,
    button: &MouseButton,
    cursor: Vector2,
) -> (pair: Option<(Entity, Entity)>)
    ensures
        pair == targeting(selected@, others@, *button, cursor),
{
    if button.button_pressed(PRIMARY_BUTTON) && selected.len() > 0 {
        match find_hit(others, cursor) {
            Some(target) => Some((selected[0], target)),
            None => None,
        }
    } else {
        None
    }
}

/// The hitpoints that a blow leaves. Nothing can be taken from none.
pub fn strike(hitpoints: Hitpoints) -> (left: Hitpoints)
    ensures
        left.0 == after_blow(hitpoints.0),
{
    Hitpoints(hitpoints.0.saturating_sub(1))
}

/// The cooldown that is left after `delta`.
pub fn cool(cooldown: Cooldown, delta: &Delta) -> (left: Cooldown)
    ensures
        left.0 == after_wait(cooldown.0, delta.0),
        left.0 == 0 <==> cooldown.0 <= delta.0,
{
    Cooldown(cooldown.0.saturating_sub(delta.0))
}

/// The projectile after `delta`: it has lost `FADE_RATE` millionths of
/// opacity for each microsecond, as far as it had them.
pub fn dim(bullet: Bullet, delta: &Delta) -> (left: Bullet)
    ensures
        left.0 == after_fade(bullet.0, delta.0),
        left.0 == 0 <==> bullet.0 <= FADE_RATE * delta.0,
        left.0 > 0 ==> left.0 == bullet.0 - FADE_RATE * delta.0,
        left.0 <= bullet.0,
{
    assert(FADE_RATE * delta.0 <= 4 * u32::MAX) by (nonlinear_arith)
        requires
            FADE_RATE == 4,
            delta.0 <= u32::MAX,
    ;
    let loss: u64 = FADE_RATE as u64 * delta.0 as u64;
    if bullet.0 as u64 > loss {
        Bullet((bullet.0 as u64 - loss) as u32)
    } else {
        Bullet(0)
    }
}

/// Sets the selected unit upon the first other unit under the cursor, where a
/// press of the primary button waits. The press is then handled. No unit is
/// set upon itself.
pub fn target_unit(
    cmd: &mut CommandBuffer,
    world: &World,
    mouse_btn: &mut MouseButton,
    mouse_pos: &MousePos,
)
    ensures
        match targeting(
            selected_units(*world),
            unselected_unit_rects(*world),
            *old(mouse_btn),
            mouse_pos@,
        ) {
            Some((attacker, target)) => {
                &&& recorded(*final(cmd)) == recorded(*old(cmd)).push(
                    Command::AddComponent(attacker, Datum::Target(target)),
                )
                &&& *final(mouse_btn) == MouseButton::Empty
                &&& attacker != target
            },
            None => {
                &&& recorded(*final(cmd)) == recorded(*old(cmd))
                &&& *final(mouse_btn) == *old(mouse_btn)
            },
        },
{
    if !mouse_btn.button_pressed(PRIMARY_BUTTON) {
        return;
    }
    let selected = find_selected_units(world);
    let others = find_unselected_unit_rects(world);
    match choose_target(&selected, &others, mouse_btn, mouse_pos.global()) {
        Some((attacker, target)) => {
            proof {
                let i = choose|i: int| is_first_hit(others@, mouse_pos@, i);
                assert(others@[i].0 == target);
                assert(selected@[0] == attacker);
            }
            add_component(cmd, attacker, Target(target));
            mouse_btn.consume();
        },
        None => {},
    }
}

/// Lets every unit that has a target and need not wait strike its target
/// once, in the order of the world.
pub fn attack_targets(cmd: &mut CommandBuffer, world: &mut World)
    ensures
        (recorded(*final(cmd)), components(*final(world))) == armed_units(*old(world)).fold_left(
            (recorded(*old(cmd)), components(*old(world))),
            |state: State, row: (Entity, Target)| blow(state, row.0, row.1.0),
        ),
        rows_kept(*old(world), *final(world), set![Kind::Hitpoints]),
{
    let attackers = find_armed_units(world);
    let placed = placed_entities(world);
    let ghost start: State = (recorded(*cmd), components(*world));
    let ghost step = |state: State, row: (Entity, Target)| blow(state, row.0, row.1.0);
    let mut i: usize = 0;
    while i < attackers.len()
        invariant
            i <= attackers.len(),
            (recorded(*cmd), components(*world)) == attackers@.take(i as int).fold_left(
                start,
                step,
            ),
            step == |state: State, row: (Entity, Target)| blow(state, row.0, row.1.0),
            rows_kept(*old(world), *world, set![Kind::Hitpoints]),
            lists_placed(placed@, *world),
        decreases attackers.len() - i,
    {
        let row: (Entity, Target) = attackers[i];
        let attacker = row.0;
        let target = row.1.0;
        proof {
            assert(attackers@.take(i as int + 1).drop_last() =~= attackers@.take(i as int));
        }
        let found: Option<Hitpoints> = lookup(&placed, world, target);
        match found {
            Some(hitpoints) => {
                proof {
                    lemma_data_is_of_placed(*world, target, Kind::Hitpoints);
                }
                let left = strike(hitpoints);
                store(world, target, left);
                if left.0 == 0 {
                    remove_component::<Target>(cmd, attacker);
                    delete(cmd, target);
                } else {
                    add_tag(cmd, attacker, Firing);
                    add_component(cmd, attacker, Cooldown(COOLDOWN));
                }
            },
            None => {},
        }
        i += 1;
    }
    assert(attackers@.take(attackers.len() as int) =~= attackers@);
}

/// Lets `delta` pass for every unit that has to wait, in the order of the
/// world. A unit whose wait is over loses its cooldown.
pub fn cooldown_units(cmd: &mut CommandBuffer, world: &mut World, delta: &Delta)
    ensures
        (recorded(*final(cmd)), components(*final(world))) == cooling_units(*old(world)).fold_left(
            (recorded(*old(cmd)), components(*old(world))),
            |state: State, row: (Entity, Cooldown)| wait(state, row.0, row.1.0, delta.0),
        ),
        rows_kept(*old(world), *final(world), set![Kind::Cooldown]),
{
    let cooling = find_cooling_units(world);
    let ghost start: State = (recorded(*cmd), components(*world));
    let ghost step = |state: State, row: (Entity, Cooldown)| wait(state, row.0, row.1.0, delta.0);
    let mut i: usize = 0;
    while i < cooling.len()
        invariant
            i <= cooling.len(),
            (recorded(*cmd), components(*world)) == cooling@.take(i as int).fold_left(start, step),
            step == |state: State, row: (Entity, Cooldown)| wait(state, row.0, row.1.0, delta.0),
            rows_kept(*old(world), *world, set![Kind::Cooldown]),
            forall|j: int|
                0 <= j < cooling@.len() ==> entities(*world).contains_key(#[trigger] cooling@[j].0),
        decreases cooling.len() - i,
    {
        let row: (Entity, Cooldown) = cooling[i];
        proof {
            assert(cooling@.take(i as int + 1).drop_last() =~= cooling@.take(i as int));
        }
        let left = cool(row.1, delta);
        store(world, row.0, left);
        if left.0 == 0 {
            remove_component::<Cooldown>(cmd, row.0);
        }
        i += 1;
    }
    assert(cooling@.take(cooling.len() as int) =~= cooling@);
}

/// Makes a projectile for every firing unit whose target has a position, and
/// takes the mark from every firing unit, in the order of the world. The
/// shots are returned, for the host to show them.
pub fn spawn_bullets(cmd: &mut CommandBuffer, world: &World) -> (shots: Vec<Shot>)
    ensures
        volley(
            firing_units(*world),
            components(*world),
            shots@.map_values(|shot: Shot| shot.bullet),
        ).1 == shots@,
        recorded(*final(cmd)) == recorded(*old(cmd)) + volley(
            firing_units(*world),
            components(*world),
            shots@.map_values(|shot: Shot| shot.bullet),
        ).0,
{
    let firing = find_firing_units(world);
    let placed = placed_entities(world);
    let mut shots: Vec<Shot> = Vec::new();
    let mut i: usize = 0;
    while i < firing.len()
        invariant
            i <= firing.len(),
            lists_placed(placed@, *world),
            volley(
                firing@.take(i as int),
                components(*world),
                shots@.map_values(|shot: Shot| shot.bullet),
            ).1 == shots@,
            recorded(*cmd) == recorded(*old(cmd)) + volley(
                firing@.take(i as int),
                components(*world),
                shots@.map_values(|shot: Shot| shot.bullet),
            ).0,
        decreases firing.len() - i,
    {
        let row: (Entity, UnitPos, Target) = firing[i];
        let ghost made = shots@.map_values(|shot: Shot| shot.bullet);
        let ghost before = volley(firing@.take(i as int), components(*world), made);
        proof {
            assert(firing@.take(i as int + 1).drop_last() =~= firing@.take(i as int));
        }
        remove_tag::<Firing>(cmd, row.0);
        let found: Option<UnitPos> = lookup(&placed, world, row.2.0);
        match found {
            Some(to) => {
                let bullet = insert_bullet(cmd, Bullet(OPAQUE));
                shots.push(Shot { bullet, from: row.1.0, to: to.0 });
                proof {
                    let now = shots@.map_values(|shot: Shot| shot.bullet);
                    assert(now.drop_last() =~= made);
                    assert(now.last() == bullet);
                    assert(recorded(*cmd) =~= recorded(*old(cmd)) + before.0.push(
                        Command::RemoveTag(row.0, Mark::Firing),
                    ).push(Command::Insert(bullet, seq![Datum::Bullet(OPAQUE)])));
                }
            },
            None => {
                proof {
                    assert(recorded(*cmd) =~= recorded(*old(cmd)) + before.0.push(
                        Command::RemoveTag(row.0, Mark::Firing),
                    ));
                }
            },
        }
        i += 1;
    }
    assert(firing@.take(firing.len() as int) =~= firing@);
    shots
}

/// Lets `delta` pass for every projectile, in the order of the world. A
/// projectile that has lost all opacity is deleted. Each projectile is
/// returned with what it holds now, for the host to show it so.
pub fn despawn_bullets(
    cmd: &mut CommandBuffer,
    world: &mut World,
    delta: &Delta,
) -> (faded: Vec<(Entity, Bullet)>)
    ensures
        (recorded(*final(cmd)), components(*final(world))) == bullets(*old(world)).fold_left(
            (recorded(*old(cmd)), components(*old(world))),
            |state: State, row: (Entity, Bullet)| fade(state, row.0, row.1.0, delta.0),
        ),
        faded@ == bullets(*old(world)).map_values(
            |row: (Entity, Bullet)| (row.0, Bullet(after_fade(row.1.0, delta.0))),
        ),
        rows_kept(*old(world), *final(world), set![Kind::Bullet]),
{
    let flying = find_bullets(world);
    let ghost start: State = (recorded(*cmd), components(*world));
    let ghost step = |state: State, row: (Entity, Bullet)| fade(state, row.0, row.1.0, delta.0);
    let ghost shown = |row: (Entity, Bullet)| (row.0, Bullet(after_fade(row.1.0, delta.0)));
    let mut faded: Vec<(Entity, Bullet)> = Vec::new();
    let mut i: usize = 0;
    while i < flying.len()
        invariant
            i <= flying.len(),
            (recorded(*cmd), components(*world)) == flying@.take(i as int).fold_left(start, step),
            faded@ == flying@.take(i as int).map_values(shown),
            step == |state: State, row: (Entity, Bullet)| fade(state, row.0, row.1.0, delta.0),
            shown == |row: (Entity, Bullet)| (row.0, Bullet(after_fade(row.1.0, delta.0))),
            rows_kept(*old(world), *world, set![Kind::Bullet]),
            forall|j: int|
                0 <= j < flying@.len() ==> entities(*world).contains_key(#[trigger] flying@[j].0),
        decreases flying.len() - i,
    {
        let row: (Entity, Bullet) = flying[i];
        proof {
            assert(flying@.take(i as int + 1).drop_last() =~= flying@.take(i as int));
            assert(flying@.take(i as int + 1).map_values(shown) =~= flying@.take(
                i as int,
            ).map_values(shown).push(shown(row)));
        }
        let left = dim(row.1, delta);
        store(world, row.0, left);
        if left.0 == 0 {
            delete(cmd, row.0);
        }
        faded.push((row.0, left));
        i += 1;
    }
    assert(flying@.take(flying.len() as int) =~= flying@);
    faded
}

} // verus!
