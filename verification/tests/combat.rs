use legion::prelude::{CommandBuffer, Entity, EntityStore, Universe, World};
use skirmish::combat::{
    attack_targets, choose_target, cool, cooldown_units, despawn_bullets, dim, spawn_bullets,
    strike, target_unit, Bullet, Cooldown, Firing, Hitpoints, Shot, Target, COOLDOWN, FADE_RATE,
    OPAQUE,
};
use skirmish::gameworld::{logic_batch, Delta, Selected};
use skirmish::geometry::{Rect2, Size2, Vector2, UNIT};
use skirmish::input::{MouseButton, MousePos};
use skirmish::units::{spawn_unit, UnitPos, UnitRect};

fn hitpoints(world: &World, entity: Entity) -> Option<u32> {
    world.get_component::<Hitpoints>(entity).map(|h| h.0)
}

fn cooldown(world: &World, entity: Entity) -> Option<u32> {
    world.get_component::<Cooldown>(entity).map(|c| c.0)
}

fn target(world: &World, entity: Entity) -> Option<Entity> {
    world.get_component::<Target>(entity).map(|t| t.0)
}

fn opacity(world: &World, entity: Entity) -> Option<u32> {
    world.get_component::<Bullet>(entity).map(|b| b.0)
}

fn is_firing(world: &World, entity: Entity) -> bool {
    world.get_tag::<Firing>(entity).is_some()
}

fn fighter(world: &mut World, x: i32, y: i32, hp: u32) -> Entity {
    let pos = Vector2::new(x, y);
    world.insert((), vec![(UnitPos(pos), UnitRect::new(pos, 10 * UNIT, 10 * UNIT), Hitpoints(hp))])[0]
}

fn attack_once(world: &mut World) {
    let mut cmd = CommandBuffer::new(world);
    attack_targets(&mut cmd, world);
    cmd.write(world);
}

// Unit should be marked as selected
#[test]
fn test_target_unit() {
    let mut world = Universe::new().create_world();
    let target_pos = Vector2::new(100 * UNIT, 100 * UNIT);
    let mut mouse_pos = MousePos::zero();
    mouse_pos.set_global(target_pos);
    let mut mouse_btn = MouseButton::Mouse { pressed: true, button_index: 1 };

    let entity = world.insert(
        (Selected,),
        vec![(UnitRect(Rect2::new(Vector2::zero(), Size2::new(10 * UNIT, 10 * UNIT))),)],
    )[0];

    let target_entity = world.insert(
        (),
        vec![(UnitRect(Rect2::new(target_pos, Size2::new(10 * UNIT, 10 * UNIT))),)],
    )[0];

    let mut cmd = CommandBuffer::new(&world);
    target_unit(&mut cmd, &world, &mut mouse_btn, &mouse_pos);
    cmd.write(&mut world);

    assert!(world.get_component::<Target>(entity).is_some());
    assert_eq!(target(&world, entity), Some(target_entity));
    assert_eq!(mouse_btn, MouseButton::Empty);
}

#[test]
fn test_attack_target() {
    let mut world = Universe::new().create_world();

    let target_entity = world.insert((), vec![(Hitpoints(10),)])[0];

    let entity = world.insert((), vec![(Target(target_entity), Hitpoints(10))])[0];

    attack_once(&mut world);

    let hitpoints = world.get_component::<Hitpoints>(target_entity).unwrap();
    assert!(hitpoints.0 == 9);
    assert!(world.is_alive(entity));
}

#[test]
fn target_unit_needs_a_selected_attacker_and_a_hit() {
    let mut world = Universe::new().create_world();
    let a = fighter(&mut world, 0, 0, 10);
    let b = fighter(&mut world, 50 * UNIT, 0, 10);
    let mut on_b = MousePos::zero();
    on_b.set_global(Vector2::new(50 * UNIT, 0));

    let mut button = MouseButton::from_event(true, 1);
    let mut cmd = CommandBuffer::new(&world);
    target_unit(&mut cmd, &world, &mut button, &on_b);
    assert_eq!(cmd.len(), 0);
    assert_eq!(button, MouseButton::from_event(true, 1));
    cmd.write(&mut world);

    world.add_tag(a, Selected).unwrap();
    let mut ground = MousePos::zero();
    ground.set_global(Vector2::new(0, 50 * UNIT));
    let mut cmd = CommandBuffer::new(&world);
    target_unit(&mut cmd, &world, &mut button, &ground);
    assert_eq!(cmd.len(), 0);
    assert_eq!(button, MouseButton::from_event(true, 1));

    let mut on_a = MousePos::zero();
    on_a.set_global(Vector2::new(0, 0));
    target_unit(&mut cmd, &world, &mut button, &on_a);
    assert_eq!(cmd.len(), 0);

    let mut other = MouseButton::from_event(true, 2);
    target_unit(&mut cmd, &world, &mut other, &on_b);
    assert_eq!(cmd.len(), 0);
    assert_eq!(other, MouseButton::from_event(true, 2));

    target_unit(&mut cmd, &world, &mut button, &on_b);
    assert_eq!(cmd.len(), 1);
    assert_eq!(button, MouseButton::Empty);
    cmd.write(&mut world);
    assert_eq!(target(&world, a), Some(b));
    assert_eq!(target(&world, b), None);
}

#[test]
fn attack_wounds_and_starts_cooldown() {
    let mut world = Universe::new().create_world();
    let victim = fighter(&mut world, 50 * UNIT, 0, 10);
    let attacker = fighter(&mut world, 0, 0, 10);
    world.add_component(attacker, Target(victim)).unwrap();

    attack_once(&mut world);

    assert_eq!(hitpoints(&world, victim), Some(9));
    assert_eq!(hitpoints(&world, attacker), Some(10));
    assert!(is_firing(&world, attacker));
    assert!(!is_firing(&world, victim));
    assert_eq!(cooldown(&world, attacker), Some(1_000_000));
    assert_eq!(COOLDOWN, 1_000_000);
    assert_eq!(target(&world, attacker), Some(victim));
}

#[test]
fn attack_kills_at_the_last_hitpoint() {
    let mut world = Universe::new().create_world();
    let victim = fighter(&mut world, 50 * UNIT, 0, 1);
    let attacker = fighter(&mut world, 0, 0, 10);
    world.add_component(attacker, Target(victim)).unwrap();

    attack_once(&mut world);

    assert!(!world.is_alive(victim));
    assert_eq!(hitpoints(&world, victim), None);
    assert_eq!(target(&world, attacker), None);
    assert!(world.is_alive(attacker));
    assert!(!is_firing(&world, attacker));
    assert_eq!(cooldown(&world, attacker), None);
}

#[test]
fn attack_on_no_hitpoints_left_does_not_wrap() {
    let mut world = Universe::new().create_world();
    let victim = fighter(&mut world, 50 * UNIT, 0, 0);
    let attacker = fighter(&mut world, 0, 0, 10);
    world.add_component(attacker, Target(victim)).unwrap();

    attack_once(&mut world);

    assert!(!world.is_alive(victim));
    assert_eq!(target(&world, attacker), None);
}

#[test]
fn attack_ignores_a_target_without_hitpoints() {
    let mut world = Universe::new().create_world();
    let rock = world.insert((), vec![(UnitPos(Vector2::new(0, 0)),)])[0];
    let attacker = fighter(&mut world, 0, 0, 10);
    world.add_component(attacker, Target(rock)).unwrap();

    let mut cmd = CommandBuffer::new(&world);
    attack_targets(&mut cmd, &mut world);
    assert_eq!(cmd.len(), 0);
    cmd.write(&mut world);

    assert!(world.is_alive(rock));
    assert_eq!(target(&world, attacker), Some(rock));
    assert!(!is_firing(&world, attacker));
    assert_eq!(cooldown(&world, attacker), None);
}

#[test]
fn attack_waits_for_the_cooldown() {
    let mut world = Universe::new().create_world();
    let victim = fighter(&mut world, 50 * UNIT, 0, 10);
    let attacker = fighter(&mut world, 0, 0, 10);
    world.add_component(attacker, Target(victim)).unwrap();

    attack_once(&mut world);
    attack_once(&mut world);
    assert_eq!(hitpoints(&world, victim), Some(9));

    let mut cmd = CommandBuffer::new(&world);
    cooldown_units(&mut cmd, &mut world, &Delta(999_000));
    cmd.write(&mut world);
    assert_eq!(cooldown(&world, attacker), Some(1_000));
    attack_once(&mut world);
    assert_eq!(hitpoints(&world, victim), Some(9));

    let mut cmd = CommandBuffer::new(&world);
    cooldown_units(&mut cmd, &mut world, &Delta(1000));
    cmd.write(&mut world);
    assert_eq!(cooldown(&world, attacker), None);
    attack_once(&mut world);
    assert_eq!(hitpoints(&world, victim), Some(8));
}

#[test]
fn two_attackers_on_one_victim_strike_in_turn() {
    let mut world = Universe::new().create_world();
    let victim = fighter(&mut world, 50 * UNIT, 0, 2);
    let first = fighter(&mut world, 0, 0, 10);
    let second = fighter(&mut world, 0, 20 * UNIT, 10);
    world.add_component(first, Target(victim)).unwrap();
    world.add_component(second, Target(victim)).unwrap();

    attack_once(&mut world);

    assert!(!world.is_alive(victim));
    let fired = [first, second].iter().filter(|e| is_firing(&world, **e)).count();
    let cleared = [first, second].iter().filter(|e| target(&world, **e).is_none()).count();
    assert_eq!(fired, 1);
    assert_eq!(cleared, 1);
}

#[test]
fn cooldown_shorter_than_the_tick_is_removed() {
    let mut world = Universe::new().create_world();
    let unit = world.insert((), vec![(Cooldown(50_000),)])[0];
    let mut cmd = CommandBuffer::new(&world);
    cooldown_units(&mut cmd, &mut world, &Delta(1_000_000));
    assert_eq!(cooldown(&world, unit), Some(0));
    assert_eq!(cmd.len(), 1);
    cmd.write(&mut world);
    assert_eq!(cooldown(&world, unit), None);
    assert!(world.is_alive(unit));
}

#[test]
fn cooldown_counts_down_by_the_tick() {
    let mut world = Universe::new().create_world();
    let slow = world.insert((), vec![(Cooldown(1_000_000),)])[0];
    let quick = world.insert((), vec![(Cooldown(16_000),)])[0];
    let mut cmd = CommandBuffer::new(&world);
    cooldown_units(&mut cmd, &mut world, &Delta(16_000));
    assert_eq!(cmd.len(), 1);
    cmd.write(&mut world);
    assert_eq!(cooldown(&world, slow), Some(984_000));
    assert_eq!(cooldown(&world, quick), None);

    let mut cmd = CommandBuffer::new(&world);
    cooldown_units(&mut cmd, &mut world, &Delta(0));
    assert_eq!(cmd.len(), 0);
    cmd.write(&mut world);
    assert_eq!(cooldown(&world, slow), Some(984_000));
}

#[test]
fn spawn_bullets_fires_once_for_each_attack() {
    let mut world = Universe::new().create_world();
    let victim = fighter(&mut world, 30 * UNIT, 40 * UNIT, 10);
    let attacker = fighter(&mut world, 0, 0, 10);
    world.add_component(attacker, Target(victim)).unwrap();
    attack_once(&mut world);
    assert!(is_firing(&world, attacker));

    let mut cmd = CommandBuffer::new(&world);
    let shots = spawn_bullets(&mut cmd, &world);
    assert_eq!(shots.len(), 1);
    assert_eq!(shots[0].from, Vector2::new(0, 0));
    assert_eq!(shots[0].to, Vector2::new(30 * UNIT, 40 * UNIT));
    assert_eq!(cmd.len(), 2);
    cmd.write(&mut world);
    assert!(!is_firing(&world, attacker));
    assert_eq!(opacity(&world, shots[0].bullet), Some(1_000_000));
    assert_eq!(OPAQUE, 1_000_000);
    assert_ne!(shots[0].bullet, attacker);
    assert_ne!(shots[0].bullet, victim);

    let delta = Delta(16_000);
    let mut button = MouseButton::Empty;
    let mut cmd = CommandBuffer::new(&world);
    logic_batch(&mut cmd, &mut world, &mut button, &MousePos::zero(), &delta);
    cmd.write(&mut world);
    assert_eq!(hitpoints(&world, victim), Some(9));
    let mut cmd = CommandBuffer::new(&world);
    let again: Vec<Shot> = spawn_bullets(&mut cmd, &world);
    assert!(again.is_empty());
    assert_eq!(cmd.len(), 0);
}

#[test]
fn spawn_bullets_clears_the_mark_without_a_target_position() {
    let mut world = Universe::new().create_world();
    let ghost = world.insert((), vec![(Hitpoints(5),)])[0];
    let attacker = fighter(&mut world, 0, 0, 10);
    world.add_component(attacker, Target(ghost)).unwrap();
    attack_once(&mut world);
    assert!(is_firing(&world, attacker));
    assert_eq!(hitpoints(&world, ghost), Some(4));

    let mut cmd = CommandBuffer::new(&world);
    let shots = spawn_bullets(&mut cmd, &world);
    assert!(shots.is_empty());
    assert_eq!(cmd.len(), 1);
    cmd.write(&mut world);
    assert!(!is_firing(&world, attacker));
}

#[test]
fn spawn_bullets_makes_a_shot_for_each_firing_unit() {
    let mut world = Universe::new().create_world();
    let victim = fighter(&mut world, 30 * UNIT, 40 * UNIT, 10);
    let ghost = world.insert((), vec![(Hitpoints(5),)])[0];
    let a = fighter(&mut world, 0, 0, 10);
    let b = fighter(&mut world, UNIT, 0, 10);
    let c = fighter(&mut world, 2 * UNIT, 0, 10);
    world.add_component(a, Target(victim)).unwrap();
    world.add_component(b, Target(ghost)).unwrap();
    world.add_component(c, Target(victim)).unwrap();
    attack_once(&mut world);

    let mut cmd = CommandBuffer::new(&world);
    let shots = spawn_bullets(&mut cmd, &world);
    assert_eq!(shots.len(), 2);
    assert_eq!(cmd.len(), 5);
    let mut from: Vec<i32> = shots.iter().map(|s| s.from.x).collect();
    from.sort();
    assert_eq!(from, vec![0, 2 * UNIT]);
    assert!(shots.iter().all(|s| s.to == Vector2::new(30 * UNIT, 40 * UNIT)));
    assert_ne!(shots[0].bullet, shots[1].bullet);
    cmd.write(&mut world);
    for unit in [a, b, c] {
        assert!(!is_firing(&world, unit));
    }
    for shot in shots {
        assert_eq!(opacity(&world, shot.bullet), Some(1_000_000));
    }
}

#[test]
fn bullet_fades_by_four_thousandths_a_millisecond_and_dies_once() {
    let mut world = Universe::new().create_world();
    let bullet = world.insert((), vec![(Bullet(OPAQUE),)])[0];
    let delta = Delta(100_000);
    let mut seen = Vec::new();
    for _ in 0..3 {
        assert!(world.is_alive(bullet));
        let mut cmd = CommandBuffer::new(&world);
        let faded = despawn_bullets(&mut cmd, &mut world, &delta);
        assert_eq!(faded.len(), 1);
        assert_eq!(faded[0].0, bullet);
        seen.push(faded[0].1 .0);
        assert_eq!(cmd.len(), if faded[0].1 .0 == 0 { 1 } else { 0 });
        assert_eq!(opacity(&world, bullet), Some(faded[0].1 .0));
        cmd.write(&mut world);
    }
    assert_eq!(seen, vec![600_000, 200_000, 0]);
    assert!(!world.is_alive(bullet));
    let mut cmd = CommandBuffer::new(&world);
    let faded = despawn_bullets(&mut cmd, &mut world, &delta);
    assert!(faded.is_empty());
    assert_eq!(cmd.len(), 0);
    assert_eq!(FADE_RATE, 4);
}

#[test]
fn bullet_that_reaches_zero_exactly_is_deleted() {
    let mut world = Universe::new().create_world();
    let bullet = world.insert((), vec![(Bullet(400_000),)])[0];
    let other = world.insert((), vec![(Bullet(401_000),)])[0];
    let mut cmd = CommandBuffer::new(&world);
    let faded = despawn_bullets(&mut cmd, &mut world, &Delta(100_000));
    assert_eq!(faded.len(), 2);
    cmd.write(&mut world);
    assert!(!world.is_alive(bullet));
    assert_eq!(opacity(&world, other), Some(1_000));
}

#[test]
fn strike_takes_one_hitpoint() {
    assert_eq!(strike(Hitpoints(10)), Hitpoints(9));
    assert_eq!(strike(Hitpoints(1)), Hitpoints(0));
    assert_eq!(strike(Hitpoints(0)), Hitpoints(0));
    assert_eq!(strike(Hitpoints(u32::MAX)), Hitpoints(u32::MAX - 1));
}

#[test]
fn cool_stops_at_zero() {
    assert_eq!(cool(Cooldown(1_000_000), &Delta(16_000)), Cooldown(984_000));
    assert_eq!(cool(Cooldown(50_000), &Delta(1_000_000)), Cooldown(0));
    assert_eq!(cool(Cooldown(16_000), &Delta(16_000)), Cooldown(0));
    assert_eq!(cool(Cooldown(0), &Delta(0)), Cooldown(0));
}

#[test]
fn dim_stops_at_zero() {
    assert_eq!(dim(Bullet(1_000_000), &Delta(16_000)), Bullet(936_000));
    assert_eq!(dim(Bullet(1_000_000), &Delta(250_000)), Bullet(0));
    assert_eq!(dim(Bullet(1_000_000), &Delta(249_000)), Bullet(4000));
    assert_eq!(dim(Bullet(1_000_000), &Delta(0)), Bullet(1_000_000));
    assert_eq!(dim(Bullet(u32::MAX), &Delta(u32::MAX)), Bullet(0));
}

#[test]
fn choose_target_pairs_first_selected_with_first_hit() {
    let mut world = Universe::new().create_world();
    let a = fighter(&mut world, 0, 0, 10);
    let b = fighter(&mut world, 50 * UNIT, 0, 10);
    let c = fighter(&mut world, 51 * UNIT, 0, 10);
    let others = vec![
        (b, UnitRect::new(Vector2::new(50 * UNIT, 0), 10 * UNIT, 10 * UNIT)),
        (c, UnitRect::new(Vector2::new(51 * UNIT, 0), 10 * UNIT, 10 * UNIT)),
    ];
    let press = MouseButton::from_event(true, 1);
    let on_both = Vector2::new(50 * UNIT, 0);
    assert_eq!(choose_target(&vec![a], &others, &press, on_both), Some((a, b)));
    assert_eq!(choose_target(&vec![a], &others, &press, Vector2::new(55_500, 0)), Some((a, c)));
    assert_eq!(choose_target(&vec![], &others, &press, on_both), None);
    assert_eq!(choose_target(&vec![a], &others, &MouseButton::Empty, on_both), None);
    assert_eq!(choose_target(&vec![a], &others, &press, Vector2::new(0, 0)), None);
}

fn pending_handle(world: &World) -> (CommandBuffer, Entity) {
    let mut cmd = CommandBuffer::new(world);
    let mut button = MouseButton::from_event(true, 2);
    let pending = spawn_unit(&mut cmd, &mut button, &MousePos::zero()).unwrap();
    (cmd, pending)
}

#[test]
fn attack_ignores_a_target_that_is_not_yet_flushed() {
    let mut world = Universe::new().create_world();
    let bystander = fighter(&mut world, 50 * UNIT, 0, 5);
    let (mut pending_cmd, pending) = pending_handle(&world);
    let attacker = fighter(&mut world, 0, 0, 10);
    world.add_component(attacker, Target(pending)).unwrap();

    let mut cmd = CommandBuffer::new(&world);
    attack_targets(&mut cmd, &mut world);
    assert_eq!(cmd.len(), 0);
    cmd.write(&mut world);

    assert_eq!(hitpoints(&world, bystander), Some(5));
    assert_eq!(hitpoints(&world, attacker), Some(10));
    assert!(!is_firing(&world, attacker));
    assert_eq!(target(&world, attacker), Some(pending));

    pending_cmd.write(&mut world);
    attack_once(&mut world);
    assert_eq!(hitpoints(&world, pending), Some(9));
    assert_eq!(hitpoints(&world, bystander), Some(5));
    assert!(is_firing(&world, attacker));
}

#[test]
fn attack_ignores_the_handle_of_a_deleted_target() {
    let mut world = Universe::new().create_world();
    let gone = fighter(&mut world, 50 * UNIT, 0, 5);
    let bystander = fighter(&mut world, 60 * UNIT, 0, 5);
    let attacker = fighter(&mut world, 0, 0, 10);
    world.add_component(attacker, Target(gone)).unwrap();
    assert!(world.delete(gone));

    let mut cmd = CommandBuffer::new(&world);
    attack_targets(&mut cmd, &mut world);
    assert_eq!(cmd.len(), 0);
    cmd.write(&mut world);
    assert_eq!(hitpoints(&world, bystander), Some(5));
    assert_eq!(hitpoints(&world, attacker), Some(10));
}

#[test]
fn spawn_bullets_makes_no_shot_at_a_target_that_is_not_yet_flushed() {
    let mut world = Universe::new().create_world();
    let bystander = fighter(&mut world, 50 * UNIT, 0, 5);
    let (_pending_cmd, pending) = pending_handle(&world);
    let attacker = world.insert(
        (Firing,),
        vec![(UnitPos(Vector2::new(0, 0)), Target(pending))],
    )[0];

    let mut cmd = CommandBuffer::new(&world);
    let shots = spawn_bullets(&mut cmd, &world);
    assert!(shots.is_empty());
    assert_eq!(cmd.len(), 1);
    cmd.write(&mut world);
    assert!(!is_firing(&world, attacker));
    assert!(world.is_alive(bystander));
}

#[test]
fn target_unit_never_sets_a_unit_upon_itself() {
    let mut world = Universe::new().create_world();
    let a = fighter(&mut world, 0, 0, 10);
    world.add_tag(a, Selected).unwrap();
    let mut on_a = MousePos::zero();
    on_a.set_global(Vector2::new(0, 0));
    let mut button = MouseButton::from_event(true, 1);
    let mut cmd = CommandBuffer::new(&world);
    target_unit(&mut cmd, &world, &mut button, &on_a);
    assert_eq!(cmd.len(), 0);
    cmd.write(&mut world);
    assert_eq!(target(&world, a), None);
    assert_eq!(button, MouseButton::from_event(true, 1));
}

#[test]
fn ticks_need_not_be_whole_milliseconds() {
    assert_eq!(cool(Cooldown(1_000_000), &Delta(16_667)), Cooldown(983_333));
    assert_eq!(dim(Bullet(1_000_000), &Delta(16_667)), Bullet(933_332));
    assert_eq!(dim(Bullet(1_000_000), &Delta(62_500)), Bullet(750_000));
    assert_eq!(dim(Bullet(1), &Delta(1)), Bullet(0));
    assert_eq!(cool(Cooldown(2), &Delta(1)), Cooldown(1));
}
