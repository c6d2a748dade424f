use shoot::entity::{EntityEvent, InputEvent, Key, Rect};
use shoot::player::Player;
use shoot::texture::{ComponentTexture, TextureInfo};

fn tex(id: usize, frames: usize) -> ComponentTexture {
    let info = TextureInfo { path: "sheet.png", total_frame: frames };
    ComponentTexture::new(id, &info, (frames * 16) as u32, 16)
}

fn make_player() -> Player {
    let viewport = Rect { x: 0, y: 0, w: 1280, h: 720 };
    Player::new(viewport, tex(0, 4), tex(1, 1), tex(2, 3), tex(3, 7), tex(4, 1), tex(5, 4))
}

#[test]
fn fire_rate_three_shots_in_forty_frames() {
    // cooldown period 16, fire held for 40 updates starting ready:
    // exactly 3 shots, on updates 1, 17 and 33, lateral offsets 0, 30, 0
    let mut p = make_player();
    assert_eq!(p.firing_speed, 16);
    assert!(p.firing_ready);
    p.handle_event(InputEvent::KeyDown(Key::Fire));
    let mut shot_frames: Vec<usize> = Vec::new();
    let mut offsets: Vec<i32> = Vec::new();
    for frame in 1..=40 {
        match p.update() {
            EntityEvent::SpawnBullet(b) => {
                shot_frames.push(frame);
                offsets.push(b.base.y - p.base.y);
            }
            EntityEvent::Empty => {}
        }
    }
    assert_eq!(shot_frames, vec![1, 17, 33]);
    assert_eq!(offsets, vec![0, 30, 0]);
}

#[test]
fn releasing_fire_resets_cooldown() {
    let mut p = make_player();
    p.handle_event(InputEvent::KeyDown(Key::Fire));
    match p.update() {
        EntityEvent::SpawnBullet(_) => {}
        EntityEvent::Empty => panic!("first press must shoot immediately"),
    }
    // a few cooldown frames, then release: no residual cooldown is kept
    for _ in 0..5 {
        match p.update() {
            EntityEvent::SpawnBullet(_) => panic!("shot during cooldown"),
            EntityEvent::Empty => {}
        }
    }
    p.handle_event(InputEvent::KeyUp(Key::Fire));
    assert!(p.firing_ready);
    assert_eq!(p.cd, 0);
    p.handle_event(InputEvent::KeyDown(Key::Fire));
    match p.update() {
        EntityEvent::SpawnBullet(_) => {}
        EntityEvent::Empty => panic!("re-press must shoot immediately"),
    }
}

#[test]
fn movement_intents_move_the_ship() {
    let mut p = make_player();
    p.handle_event(InputEvent::KeyDown(Key::Right));
    p.handle_event(InputEvent::KeyDown(Key::Down));
    p.update();
    assert_eq!(p.base.x, 108);
    assert_eq!(p.base.y, 108);
    p.handle_event(InputEvent::KeyUp(Key::Right));
    p.handle_event(InputEvent::KeyUp(Key::Down));
    p.handle_event(InputEvent::KeyDown(Key::Up));
    p.update();
    assert_eq!(p.base.x, 108);
    assert_eq!(p.base.y, 100);
}

#[test]
fn player_is_clamped_at_the_viewport_edge() {
    let mut p = make_player();
    p.handle_event(InputEvent::KeyDown(Key::Left));
    // from x = 100 at 8 pixels per frame the last accepted step lands on
    // x = 4; the next candidate would leave the viewport and is rejected,
    // so the ship stays put instead of leaving
    for _ in 0..40 {
        p.update();
    }
    assert_eq!(p.base.x, 4);
    assert!(p.base.valid);
}

#[test]
fn player_bullet_is_tagged_player_side() {
    let p = make_player();
    let b = p.spawn_bullet(30);
    assert!(b.is_player());
    assert!(!b.is_enemy());
    assert!(b.is_bullet());
    assert_eq!(b.base.x, p.base.x);
    assert_eq!(b.base.y, p.base.y + 30);
    assert_eq!(b.base.dx, 16);
    assert_eq!(b.base.dy, 0);
    assert!(b.base.valid);
}

#[test]
fn render_order_and_engine_selection() {
    // paint order: hull, engine base, weapon, then one of the two engine
    // effects: powering while any movement intent is active, idle otherwise
    let mut p = make_player();
    let cmds = p.render();
    let ids: Vec<usize> = cmds.iter().map(|c| c.texture_id).collect();
    assert_eq!(ids, vec![4, 1, 3, 2]);
    // while idle and not firing, the weapon shows its first frame
    assert_eq!(cmds[2].src_x, 0);
    p.handle_event(InputEvent::KeyDown(Key::Up));
    let cmds = p.render();
    let ids: Vec<usize> = cmds.iter().map(|c| c.texture_id).collect();
    assert_eq!(ids, vec![4, 1, 3, 0]);
}

#[test]
fn other_keys_are_ignored() {
    let mut p = make_player();
    p.handle_event(InputEvent::KeyDown(Key::Other));
    assert!(!p.firing && !p.up && !p.down && !p.left && !p.right);
    let before = p.base;
    p.update();
    assert_eq!(p.base, before);
}
