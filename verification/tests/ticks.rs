use legion::prelude::{CommandBuffer, Entity, EntityStore, Universe, World};
use skirmish::combat::{
    despawn_bullets, spawn_bullets, target_unit, Bullet, Cooldown, Firing, Hitpoints, Shot, Target,
};
use skirmish::gameworld::{logic_batch, Delta, Selected};
use skirmish::geometry::{Vector2, UNIT};
use skirmish::input::{MouseButton, MousePos};
use skirmish::units::{move_units, spawn_unit, unit_moved, Destination, UnitPos, UnitRect};

struct Host {
    world: World,
    mouse_pos: MousePos,
    mouse_btn: MouseButton,
    shots: Vec<Shot>,
    faded: Vec<(Entity, Bullet)>,
}

impl Host {
    fn new() -> Host {
        Host {
            world: Universe::new().create_world(),
            mouse_pos: MousePos::zero(),
            mouse_btn: MouseButton::Empty,
            shots: Vec::new(),
            faded: Vec::new(),
        }
    }

    fn click(&mut self, button_index: i64, x: i32, y: i32) {
        self.mouse_pos.set_global(Vector2::new(x, y));
        self.mouse_btn = MouseButton::from_event(true, button_index);
    }

    /// One logic tick: the batch, then each exclusive system, with a flush
    /// after the batch and after each of them.
    fn process(&mut self, micros: u32) -> Option<Entity> {
        let delta = Delta(micros);
        let world = &mut self.world;
        let mut cmd = CommandBuffer::new(world);
        logic_batch(&mut cmd, world, &mut self.mouse_btn, &self.mouse_pos, &delta);
        cmd.write(world);
        self.shots = spawn_bullets(&mut cmd, world);
        cmd.write(world);
        self.faded = despawn_bullets(&mut cmd, world, &delta);
        cmd.write(world);
        let spawned = spawn_unit(&mut cmd, &mut self.mouse_btn, &self.mouse_pos);
        cmd.write(world);
        spawned
    }

    /// One physics tick, with bodies that advance `step` grid steps along x
    /// towards their destination.
    fn physics(&mut self, step: i32) {
        let world = &mut self.world;
        let mut cmd = CommandBuffer::new(world);
        for course in move_units(world) {
            let at = world.get_component::<UnitPos>(course.entity).map(|p| p.0).unwrap();
            let rest = Vector2::new(at.x + step * course.dx.signum() as i32, at.y);
            unit_moved(&mut cmd, world, course.entity, rest);
        }
        cmd.write(world);
    }

    fn selected(&self) -> Vec<Entity> {
        self.world.iter_entities().filter(|e| self.world.get_tag::<Selected>(*e).is_some()).collect()
    }
}

#[test]
fn a_unit_is_spawned_selected_sent_and_arrives() {
    let mut host = Host::new();
    host.click(2, 10 * UNIT, 10 * UNIT);
    let unit = host.process(16_000).unwrap();
    assert_eq!(host.mouse_btn, MouseButton::Empty);
    assert_eq!(host.world.get_component::<Hitpoints>(unit).map(|h| *h), Some(Hitpoints(10)));
    assert!(host.selected().is_empty());

    host.click(1, 10 * UNIT, 10 * UNIT);
    assert_eq!(host.process(16_000), None);
    assert_eq!(host.selected(), vec![unit]);

    host.click(1, 30 * UNIT, 10 * UNIT);
    host.process(16_000);
    assert!(host.selected().is_empty());
    assert_eq!(
        host.world.get_component::<Destination>(unit).map(|d| *d),
        Some(Destination(Vector2::new(30 * UNIT, 10 * UNIT)))
    );

    let mut ticks = 0;
    while host.world.get_component::<Destination>(unit).is_some() {
        host.physics(5 * UNIT);
        ticks += 1;
        assert!(ticks < 10);
    }
    assert_eq!(ticks, 4);
    assert_eq!(
        host.world.get_component::<UnitPos>(unit).map(|p| *p),
        Some(UnitPos(Vector2::new(30 * UNIT, 10 * UNIT)))
    );
    assert!(host
        .world
        .get_component::<UnitRect>(unit)
        .map(|r| r.0.contains(Vector2::new(30 * UNIT, 10 * UNIT)))
        .unwrap());
}

#[test]
fn a_fight_runs_to_the_death_of_the_victim() {
    let mut host = Host::new();
    host.click(2, 0, 0);
    let attacker = host.process(16_000).unwrap();
    host.click(2, 60 * UNIT, 80 * UNIT);
    let victim = host.process(16_000).unwrap();

    host.click(1, 0, 0);
    host.process(16_000);
    assert_eq!(host.selected(), vec![attacker]);

    host.click(1, 60 * UNIT, 80 * UNIT);
    {
        let mut cmd = CommandBuffer::new(&host.world);
        target_unit(&mut cmd, &host.world, &mut host.mouse_btn, &host.mouse_pos);
        cmd.write(&mut host.world);
    }
    assert_eq!(host.mouse_btn, MouseButton::Empty);
    assert_eq!(host.world.get_component::<Target>(attacker).map(|t| *t), Some(Target(victim)));
    assert_eq!(host.selected(), vec![attacker]);

    let mut shots = 0;
    let mut blows = 0;
    let mut ticks = 0;
    while host.world.is_alive(victim) {
        let before = host.world.get_component::<Hitpoints>(victim).map(|h| h.0).unwrap();
        host.process(250_000);
        ticks += 1;
        assert!(ticks < 100);
        assert!(host.selected().len() <= 1);
        assert!(host.world.get_tag::<Firing>(attacker).is_none());
        if host.world.is_alive(victim) {
            let after = host.world.get_component::<Hitpoints>(victim).map(|h| h.0).unwrap();
            assert!(after == before || after + 1 == before);
            if after + 1 == before {
                blows += 1;
                assert_eq!(host.shots.len(), 1);
                assert_eq!(host.shots[0].from, Vector2::new(0, 0));
                assert_eq!(host.shots[0].to, Vector2::new(60 * UNIT, 80 * UNIT));
                assert_eq!(host.world.get_component::<Cooldown>(attacker).map(|c| c.0), Some(1_000_000));
            } else {
                assert!(host.shots.is_empty());
            }
        } else {
            assert_eq!(before, 1);
            assert!(host.shots.is_empty());
        }
        shots += host.shots.len();
        for (entity, bullet) in host.faded.iter() {
            assert_eq!(host.world.is_alive(*entity), bullet.0 > 0);
        }
    }
    assert_eq!(blows, 9);
    assert_eq!(shots, 9);
    assert_eq!(host.world.get_component::<Target>(attacker).map(|t| *t), None);
    assert_eq!(host.world.get_component::<Hitpoints>(attacker).map(|h| h.0), Some(10));
}

#[test]
fn a_shot_fades_over_the_next_ticks() {
    let mut host = Host::new();
    let bullet = host.world.insert((), vec![(Bullet(1_000_000),)])[0];
    let mut opacities = Vec::new();
    while host.world.is_alive(bullet) {
        host.process(60_000);
        assert_eq!(host.faded.len(), 1);
        opacities.push(host.faded[0].1 .0);
        assert!(opacities.len() < 10);
    }
    assert_eq!(opacities, vec![760_000, 520_000, 280_000, 40_000, 0]);
    host.process(60_000);
    assert!(host.faded.is_empty());
}
