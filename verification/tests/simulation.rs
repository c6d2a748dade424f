use shoot::bullet::Side;
use shoot::enemy::Enemy;
use shoot::entity::{Entity, EntityEvent, InputEvent, Key, Rect};
use shoot::player::Player;
use shoot::sim::Simulation;
use shoot::texture::{ComponentTexture, TextureInfo};

fn tex(id: usize, frames: usize) -> ComponentTexture {
    let info = TextureInfo { path: "sheet.png", total_frame: frames };
    ComponentTexture::new(id, &info, (frames * 16) as u32, 16)
}

fn viewport() -> Rect {
    Rect { x: 0, y: 0, w: 1280, h: 720 }
}

fn make_player() -> Player {
    Player::new(viewport(), tex(0, 4), tex(1, 1), tex(2, 3), tex(3, 7), tex(4, 1), tex(5, 4))
}

fn make_sim() -> Simulation {
    Simulation::new(viewport(), make_player(), tex(10, 4), tex(11, 2), tex(12, 4))
}

#[test]
fn countdown_zero_spawns_on_first_check() {
    let mut sim = make_sim();
    sim.enemy_spawn_time = 0;
    sim.spawn_enemy(1000);
    assert_eq!(sim.entities.len(), 2);
    match &sim.entities[1] {
        Entity::Enemy(e) => {
            assert_eq!(e.base.x, 1280);
            assert!(100 <= e.base.y && e.base.y <= 620);
            assert!(-13 <= e.base.dx && e.base.dx <= -4);
            assert_eq!(e.base.dy, 0);
            assert!(e.base.valid);
            assert_eq!(e.firing_ticks, 1000);
        }
        _ => panic!("the timed spawn must append an enemy"),
    }
    assert!(30 <= sim.enemy_spawn_time && sim.enemy_spawn_time < 90);
}

#[test]
fn countdown_above_one_only_ticks() {
    let mut sim = make_sim();
    sim.enemy_spawn_time = 5;
    sim.spawn_enemy(0);
    assert_eq!(sim.entities.len(), 1);
    assert_eq!(sim.enemy_spawn_time, 4);
}

#[test]
fn spawned_enemy_height_is_clamped_for_every_draw() {
    for _ in 0..50 {
        let e = Enemy::new(viewport(), 0, tex(10, 4), tex(11, 2), tex(12, 4));
        assert!(100 <= e.base.y && e.base.y <= 620);
        assert!(-13 <= e.base.dx && e.base.dx <= -4);
    }
}

#[test]
fn spawn_position_formula_on_exact_draws() {
    // y = (draw % height) clamped into [100, height - 100];
    // dx = -(4 + speed_draw % 10)
    let e = Enemy::from_draws(viewport(), 7, 50, 7, tex(10, 4), tex(11, 2), tex(12, 4));
    assert_eq!(e.base.y, 100);
    assert_eq!(e.base.dx, -11);
    assert_eq!(e.base.x, 1280);
    assert_eq!(e.firing_ticks, 7);
    let e = Enemy::from_draws(viewport(), 0, 1000, 20, tex(10, 4), tex(11, 2), tex(12, 4));
    assert_eq!(e.base.y, 280);
    assert_eq!(e.base.dx, -4);
    let e = Enemy::from_draws(viewport(), 0, 719, 9, tex(10, 4), tex(11, 2), tex(12, 4));
    assert_eq!(e.base.y, 620);
    assert_eq!(e.base.dx, -13);
}

#[test]
fn enemy_fires_on_the_wall_clock() {
    let mut e = Enemy::new(viewport(), 1000, tex(10, 4), tex(11, 2), tex(12, 4));
    // under the 800 ms interval: no shot
    match e.update(1500) {
        EntityEvent::SpawnBullet(_) => panic!("fired before the interval elapsed"),
        EntityEvent::Empty => {}
    }
    // the interval has elapsed: one shot, offset 25 down, flying left
    let y = e.base.y;
    match e.update(1800) {
        EntityEvent::SpawnBullet(b) => {
            assert!(b.is_enemy());
            assert_eq!(b.base.y, y + 25);
            assert_eq!(b.base.dx, -10);
            assert_eq!(e.firing_ticks, 1800);
        }
        EntityEvent::Empty => panic!("must fire once the interval elapsed"),
    }
}

#[test]
fn enemy_despawns_off_the_left_edge() {
    let mut e = Enemy::new(viewport(), 0, tex(10, 4), tex(11, 2), tex(12, 4));
    e.base.x = 0;
    e.base.width = 0;
    e.update(0);
    assert!(!e.base.valid);
    assert_eq!(e.base.x, 0);
}

#[test]
fn bullet_despawns_past_the_leading_edge() {
    // one accepted step to 1278, then a rejected step flags it invalid
    let p = make_player();
    let mut b = p.spawn_bullet(0);
    b.base.x = 1262;
    b.base.width = 0;
    b.update();
    assert_eq!(b.base.x, 1278);
    assert!(b.base.valid);
    b.update();
    assert_eq!(b.base.x, 1278);
    assert!(!b.base.valid);
}

#[test]
fn quit_event_terminates_the_frame() {
    let mut sim = make_sim();
    let events = vec![InputEvent::KeyDown(Key::Right), InputEvent::Quit];
    let cmds = sim.step_frame(&events, 0);
    assert!(!sim.running);
    assert!(cmds.is_empty());
    // the frame was cut short: no update ran, the ship did not move
    match &sim.entities[0] {
        Entity::Player(p) => {
            assert_eq!(p.base.x, 100);
            assert!(p.right);
        }
        _ => panic!("the player must still be there"),
    }
}

#[test]
fn frame_pipeline_runs_in_order() {
    let mut sim = make_sim();
    sim.enemy_spawn_time = 100;
    let events = vec![InputEvent::KeyDown(Key::Fire)];
    let cmds = sim.step_frame(&events, 0);
    // the shot of this frame was appended after the player
    assert_eq!(sim.entities.len(), 2);
    match &sim.entities[1] {
        Entity::Bullet(b) => {
            assert!(b.is_player());
            assert!(b.base.valid);
        }
        _ => panic!("the fired bullet must be appended"),
    }
    // player draws 4 sprites, the bullet 1
    assert_eq!(cmds.len(), 5);
    assert_eq!(sim.enemy_spawn_time, 99);
    assert!(sim.running);
    for e in &sim.entities {
        assert!(e.valid());
    }
}

#[test]
fn same_frame_spawn_takes_part_in_collision() {
    // an enemy sits right on the player's twin-gun muzzle: the bullet fired
    // this frame overlaps it immediately and both are compacted away before
    // the render of the very same frame
    let mut sim = make_sim();
    sim.enemy_spawn_time = 100;
    let enemy = Enemy {
        base: shoot::entity::EntityBase {
            x: 100,
            y: 95,
            width: 16,
            height: 16,
            dx: 0,
            dy: 0,
            viewport: viewport(),
            valid: true,
        },
        firing_ticks: 0,
        engine_texture: tex(10, 4),
        body_texture: tex(11, 2),
        projectile_texture: tex(12, 4),
    };
    sim.entities.push(Entity::Enemy(enemy));
    let events = vec![InputEvent::KeyDown(Key::Fire)];
    sim.step_frame(&events, 0);
    // survivors: the player alone; enemy and fresh bullet died together
    assert_eq!(sim.entities.len(), 1);
    match &sim.entities[0] {
        Entity::Player(_) => {}
        _ => panic!("only the player survives this frame"),
    }
}

#[test]
fn dead_entities_are_gone_within_one_frame() {
    // monotonic liveness: an entity whose flag was cleared is compacted out
    // by the next frame and never observed again
    let mut sim = make_sim();
    sim.enemy_spawn_time = 100;
    let mut e = Enemy::new(viewport(), 0, tex(10, 4), tex(11, 2), tex(12, 4));
    e.base.x = 400;
    e.base.dx = -4;
    let mut dead = Entity::Enemy(e);
    dead.set_dead();
    sim.entities.push(dead);
    let cmds = sim.step_frame(&Vec::new(), 0);
    assert_eq!(sim.entities.len(), 1);
    assert!(sim.entities[0].valid());
    // only the player rendered: the dead enemy never reached the frame's draw list
    assert_eq!(cmds.len(), 4);
}

#[test]
fn update_collects_events_in_entity_order() {
    let mut sim = make_sim();
    let events = sim.update(0);
    assert_eq!(events.len(), 1);
    match events[0] {
        EntityEvent::Empty => {}
        _ => panic!("an idle player emits nothing"),
    }
}

#[test]
fn bullets_of_each_side_travel_their_way() {
    let p = make_player();
    let pb = p.spawn_bullet(0);
    assert!(pb.base.dx > 0);
    assert_eq!(pb.side, Side::Player);
    let e = Enemy::new(viewport(), 0, tex(10, 4), tex(11, 2), tex(12, 4));
    let eb = e.spawn_bullet(25);
    assert!(eb.base.dx < 0);
    assert_eq!(eb.side, Side::Enemy);
}
