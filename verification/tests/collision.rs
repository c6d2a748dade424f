use shoot::bullet::{Bullet, Side};
use shoot::player::Player;
use shoot::enemy::Enemy;
use shoot::entity::{Entity, EntityBase, Rect};
use shoot::sim::Simulation;
use shoot::texture::{ComponentTexture, TextureInfo};

fn tex(id: usize, frames: usize) -> ComponentTexture {
    let info = TextureInfo { path: "sheet.png", total_frame: frames };
    ComponentTexture::new(id, &info, (frames * 16) as u32, 16)
}

fn viewport() -> Rect {
    Rect { x: 0, y: 0, w: 1280, h: 720 }
}

fn body_at(x: i32, y: i32, w: i32, h: i32) -> EntityBase {
    EntityBase { x, y, width: w, height: h, dx: 0, dy: 0, viewport: viewport(), valid: true }
}

fn enemy_at(x: i32, y: i32) -> Entity {
    Entity::Enemy(Enemy {
        base: body_at(x, y, 32, 32),
        firing_ticks: 0,
        engine_texture: tex(10, 4),
        body_texture: tex(11, 2),
        projectile_texture: tex(12, 4),
    })
}

fn bullet_at(x: i32, y: i32, side: Side) -> Entity {
    Entity::Bullet(Bullet::new(body_at(x, y, 8, 8), side, 0, tex(13, 4)))
}

fn sim_with(entities: Vec<Entity>) -> Simulation {
    Simulation {
        entities,
        enemy_spawn_time: 10,
        viewport: viewport(),
        enemy_engine_texture: tex(10, 4),
        enemy_body_texture: tex(11, 2),
        enemy_projectile_texture: tex(12, 4),
        running: true,
    }
}

#[test]
fn enemy_and_player_bullet_die_together() {
    let mut sim = sim_with(vec![enemy_at(200, 200), bullet_at(210, 210, Side::Player)]);
    sim.handle_collision();
    assert!(!sim.entities[0].valid());
    assert!(!sim.entities[1].valid());
    sim.clear();
    assert_eq!(sim.entities.len(), 0);
}

#[test]
fn mirror_ordering_is_symmetric() {
    let mut sim = sim_with(vec![bullet_at(210, 210, Side::Player), enemy_at(200, 200)]);
    sim.handle_collision();
    assert!(!sim.entities[0].valid());
    assert!(!sim.entities[1].valid());
}

#[test]
fn two_enemies_never_collide() {
    let mut sim = sim_with(vec![enemy_at(200, 200), enemy_at(205, 205)]);
    sim.handle_collision();
    assert!(sim.entities[0].valid());
    assert!(sim.entities[1].valid());
}

#[test]
fn two_player_bullets_never_collide() {
    let mut sim = sim_with(vec![
        bullet_at(200, 200, Side::Player),
        bullet_at(202, 202, Side::Player),
    ]);
    sim.handle_collision();
    assert!(sim.entities[0].valid());
    assert!(sim.entities[1].valid());
}

#[test]
fn enemy_bullet_does_not_hurt_enemy() {
    let mut sim = sim_with(vec![enemy_at(200, 200), bullet_at(210, 210, Side::Enemy)]);
    sim.handle_collision();
    assert!(sim.entities[0].valid());
    assert!(sim.entities[1].valid());
}

#[test]
fn touching_edges_do_not_collide() {
    // enemy box ends at x = 232; a bullet starting exactly there only touches
    let mut sim = sim_with(vec![enemy_at(200, 200), bullet_at(232, 210, Side::Player)]);
    sim.handle_collision();
    assert!(sim.entities[0].valid());
    assert!(sim.entities[1].valid());
}

#[test]
fn dead_slots_are_skipped_within_one_pass() {
    // two bullets over one enemy: the first kill is decided mid-pass, so the
    // second bullet finds a dead enemy and survives
    let mut sim = sim_with(vec![
        enemy_at(200, 200),
        bullet_at(210, 210, Side::Player),
        bullet_at(212, 212, Side::Player),
    ]);
    sim.handle_collision();
    assert!(!sim.entities[0].valid());
    assert!(!sim.entities[1].valid());
    assert!(sim.entities[2].valid());
}

#[test]
fn compaction_keeps_survivor_order() {
    let mut a = enemy_at(100, 100);
    let b = enemy_at(300, 100);
    let c = enemy_at(500, 100);
    a.set_dead();
    let mut sim = sim_with(vec![a, b, c, bullet_at(900, 600, Side::Enemy)]);
    sim.clear();
    assert_eq!(sim.entities.len(), 3);
    match (&sim.entities[0], &sim.entities[1]) {
        (Entity::Enemy(e0), Entity::Enemy(e1)) => {
            assert_eq!(e0.base.x, 300);
            assert_eq!(e1.base.x, 500);
        }
        _ => panic!("survivors must stay enemies, in order"),
    }
    match &sim.entities[2] {
        Entity::Bullet(b) => assert_eq!(b.base.x, 900),
        _ => panic!("the bullet must stay last"),
    }
}

#[test]
fn player_never_collides() {
    let p = Player::new(viewport(), tex(0, 4), tex(1, 1), tex(2, 3), tex(3, 7), tex(4, 1), tex(5, 4));
    // an enemy bullet right on top of the player's position
    let mut sim = sim_with(vec![
        Entity::Player(p),
        bullet_at(100, 100, Side::Enemy),
    ]);
    sim.handle_collision();
    assert!(sim.entities[0].valid());
    assert!(sim.entities[1].valid());
    assert!(sim.entities[0].base().is_none());
}
