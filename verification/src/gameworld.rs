//! What the whole simulation shares: the time step of the running tick, the
//! mark of the unit that the player has chosen, and the batch of systems
//! that opens a logic tick.

use crate::combat::{attack_targets, blow, cooldown_units, wait, Cooldown, State, Target};
use crate::ecs::{
    armed_units, components, cooling_units, recorded, rows_kept, selected_units, unit_rects,
    Command, Kind, Mark, Tag,
};
use crate::geometry::Vector2;
use crate::input::{MouseButton, MousePos};
use crate::units::{
    marching_orders, order_accepted, select_unit, selection, set_unit_destination, UnitRect,
};
use legion::prelude::{CommandBuffer, Entity, World};
use vstd::prelude::*;

verus! {

/// The time since the last tick, in microseconds.
#[derive(Clone, Copy, Debug, PartialEq, Eq)]
pub struct Delta(pub u32);

/// Marks the unit that the player has chosen. At most one unit bears it.
#[derive(Clone, Copy, Debug, PartialEq, Eq)]
pub struct Selected;

impl Tag for Selected {
    open spec fn mark() -> Mark {
        Mark::Selected
    }
}

/// What the units of a world are to the first batch of a logic tick.
pub struct Muster {
    /// The units that bear `Selected`.
    pub selected: Seq<Entity>,
    /// The rectangles of all units.
    pub rects: Seq<(Entity, UnitRect)>,
    /// The units that have a target and need not wait.
    pub armed: Seq<(Entity, Target)>,
    /// The units that have to wait.
    pub cooling: Seq<(Entity, Cooldown)>,
}

/// The muster of `world`.
pub open spec fn muster(world: World) -> Muster {
    Muster {
        selected: selected_units(world),
        rects: unit_rects(world),
        armed: armed_units(world),
        cooling: cooling_units(world),
    }
}

/// The button after selection and sending have had their turn at it: handled
/// where either took the click.
pub open spec fn button_after(units: Muster, button: MouseButton, cursor: Vector2) -> MouseButton {
    if selection(units.selected, units.rects, button, cursor) is Some || order_accepted(
        units.rects,
        button,
        cursor,
    ) {
        MouseButton::Empty
    } else {
        button
    }
}

/// What a click records: the mark for the unit that it selects, or else the
/// orders for the selected units where it sends them.
pub open spec fn click(units: Muster, button: MouseButton, cursor: Vector2) -> Seq<Command> {
    match selection(units.selected, units.rects, button, cursor) {
        Some(unit) => seq![Command::AddTag(unit, Mark::Selected)],
        None => if order_accepted(units.rects, button, cursor) {
            marching_orders(units.selected, cursor)
        } else {
            Seq::empty()
        },
    }
}

/// What the first batch of a logic tick makes of the commands that wait and
/// the data of the world: the click is taken in, then every armed unit
/// strikes, then `delta` passes for every unit that waits.
pub open spec fn logic_outcome(
    state: State,
    units: Muster,
    button: MouseButton,
    cursor: Vector2,
    delta: u32,
) -> State {
    let clicked = (state.0 + click(units, button, cursor), state.1);
    let fought = units.armed.fold_left(
        clicked,
        |state: State, row: (Entity, Target)| blow(state, row.0, row.1.0),
    );
    units.cooling.fold_left(
        fought,
        |state: State, row: (Entity, Cooldown)| wait(state, row.0, row.1.0, delta),
    )
}

/// Whether the command gives an entity the mark `Selected`.
pub open spec fn selects(command: Command) -> bool {
    command matches Command::AddTag(_, Mark::Selected)
}

/// The first batch of a logic tick, on one command buffer: selection, the
/// sending of the selected units, attacks and cooldowns, in this order. None
/// of them sees what another has recorded; the buffer is to be flushed after
/// the batch.
pub fn logic_batch(
    cmd: &mut CommandBuffer,
    world: &mut World,
    mouse_btn: &mut MouseButton,
    mouse_pos: &MousePos,
    delta: &Delta,
)
    ensures
        (recorded(*final(cmd)), components(*final(world))) == logic_outcome(
            (recorded(*old(cmd)), components(*old(world))),
            muster(*old(world)),
            *old(mouse_btn),
            mouse_pos@,
            delta.0,
        ),
        *final(mouse_btn) == button_after(muster(*old(world)), *old(mouse_btn), mouse_pos@),
        rows_kept(*old(world), *final(world), set![Kind::Hitpoints, Kind::Cooldown]),
{
    let ghost units = muster(*world);
    let ghost start: State = (recorded(*cmd), components(*world));
    select_unit(cmd, world, mouse_btn, mouse_pos);
    set_unit_destination(cmd, world, mouse_btn, mouse_pos);
    proof {
        let chosen = selection(units.selected, units.rects, *old(mouse_btn), mouse_pos@);
        if chosen is Some {
            assert(!order_accepted(units.rects, MouseButton::Empty, mouse_pos@));
            crate::units::lemma_first_hit(units.rects, mouse_pos@);
        }
        assert(recorded(*cmd) =~= start.0 + click(units, *old(mouse_btn), mouse_pos@));
    }
    attack_targets(cmd, world);
    cooldown_units(cmd, world, delta);
}

/// In what the first batch of a logic tick adds to the commands that wait,
/// only the first command can give the mark `Selected`, and only where no
/// unit bore it before the batch. The commands that waited before stay as
/// they were.
pub proof fn lemma_batch_selects_once(
    state: State,
    units: Muster,
    button: MouseButton,
    cursor: Vector2,
    delta: u32,
)
    ensures
        logic_outcome(state, units, button, cursor, delta).0.len() >= state.0.len(),
        logic_outcome(state, units, button, cursor, delta).0.take(state.0.len() as int)
            == state.0,
        forall|i: int|
            state.0.len() <= i < logic_outcome(state, units, button, cursor, delta).0.len()
                && selects(#[trigger] logic_outcome(state, units, button, cursor, delta).0[i])
                ==> i == state.0.len() && units.selected.len() == 0,
{
    let clicked: State = (state.0 + click(units, button, cursor), state.1);
    let fought = units.armed.fold_left(
        clicked,
        |state: State, row: (Entity, Target)| blow(state, row.0, row.1.0),
    );
    lemma_blows_record(units.armed, clicked);
    lemma_waits_record(units.cooling, fought, delta);
    let last = logic_outcome(state, units, button, cursor, delta);
    assert forall|i: int| 0 <= i < fought.0.len() implies last.0[i] == fought.0[i] by {
        assert(last.0.take(fought.0.len() as int)[i] == last.0[i]);
    }
    assert forall|i: int| 0 <= i < clicked.0.len() implies fought.0[i] == clicked.0[i] by {
        assert(fought.0.take(clicked.0.len() as int)[i] == fought.0[i]);
    }
    assert(last.0.take(state.0.len() as int) =~= state.0);
    assert forall|i: int| state.0.len() <= i < last.0.len() && selects(#[trigger] last.0[i])
        implies i == state.0.len() && units.selected.len() == 0 by {
        if i >= fought.0.len() {
            assert(!selects(last.0[i]));
        } else if i >= clicked.0.len() {
            assert(!selects(fought.0[i]));
        } else {
            assert(last.0[i] == click(units, button, cursor)[i - state.0.len()]);
        }
    }
}

/// Blows leave the commands that wait as they are and add none that gives
/// the mark `Selected`.
proof fn lemma_blows_record(armed: Seq<(Entity, Target)>, state: State)
    ensures
        ({
            let fought = armed.fold_left(
                state,
                |state: State, row: (Entity, Target)| blow(state, row.0, row.1.0),
            );
            &&& fought.0.len() >= state.0.len()
            &&& fought.0.take(state.0.len() as int) == state.0
            &&& forall|i: int|
                state.0.len() <= i < fought.0.len() ==> !selects(#[trigger] fought.0[i])
        }),
    decreases armed.len(),
{
    let step = |state: State, row: (Entity, Target)| blow(state, row.0, row.1.0);
    if armed.len() > 0 {
        lemma_blows_record(armed.drop_last(), state);
        let before = armed.drop_last().fold_left(state, step);
        let fought = armed.fold_left(state, step);
        assert(fought == blow(before, armed.last().0, armed.last().1.0));
        assert(fought.0.take(state.0.len() as int) =~= before.0.take(state.0.len() as int));
    } else {
        assert(state.0.take(state.0.len() as int) =~= state.0);
    }
}

/// Waits leave the commands that wait as they are and add none that gives
/// the mark `Selected`.
proof fn lemma_waits_record(cooling: Seq<(Entity, Cooldown)>, state: State, delta: u32)
    ensures
        ({
            let waited = cooling.fold_left(
                state,
                |state: State, row: (Entity, Cooldown)| wait(state, row.0, row.1.0, delta),
            );
            &&& waited.0.len() >= state.0.len()
            &&& waited.0.take(state.0.len() as int) == state.0
            &&& forall|i: int|
                state.0.len() <= i < waited.0.len() ==> !selects(#[trigger] waited.0[i])
        }),
    decreases cooling.len(),
{
    let step = |state: State, row: (Entity, Cooldown)| wait(state, row.0, row.1.0, delta);
    if cooling.len() > 0 {
        lemma_waits_record(cooling.drop_last(), state, delta);
        let before = cooling.drop_last().fold_left(state, step);
        let waited = cooling.fold_left(state, step);
        assert(waited == wait(before, cooling.last().0, cooling.last().1.0, delta));
        assert(waited.0.take(state.0.len() as int) =~= before.0.take(state.0.len() as int));
    } else {
        assert(state.0.take(state.0.len() as int) =~= state.0);
    }
}

} // verus!
