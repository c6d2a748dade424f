use shoot::entity::{EntityBase, Rect};

fn body(x: i32, y: i32, w: i32, h: i32, dx: i32, dy: i32) -> EntityBase {
    EntityBase {
        x,
        y,
        width: w,
        height: h,
        dx,
        dy,
        viewport: Rect { x: 0, y: 0, w: 1280, h: 720 },
        valid: true,
    }
}

#[test]
fn accepted_step_moves_and_overlaps() {
    let mut b = body(0, 0, 32, 32, 8, 8);
    assert!(b.update_x());
    assert_eq!(b.x, 8);
    assert!(b.x <= 1280 && b.x + b.width >= 0);
    assert!(b.update_y());
    assert_eq!(b.y, 8);
    assert!(b.y <= 720 && b.y + b.height >= 0);
    assert!(b.valid);
}

#[test]
fn rejected_step_leaves_position_unchanged() {
    let mut b = body(1270, 100, 0, 0, 16, 0);
    assert!(!b.update_x());
    assert_eq!(b.x, 1270);
    assert_eq!(b.y, 100);
    assert!(b.valid);
}

#[test]
fn reverse_steps_negate_velocity() {
    let mut b = body(100, 100, 16, 16, 8, 8);
    assert!(b.update_x_rev());
    assert_eq!(b.x, 92);
    assert!(b.update_y_rev());
    assert_eq!(b.y, 92);
}

#[test]
fn reverse_step_rejected_at_near_edge() {
    // moving left past the point where the box would leave the viewport
    let mut b = body(-20, 100, 16, 16, 8, 0);
    // candidate -28: -28 + 16 = -12 < 0, no overlap on x
    assert!(!b.update_x_rev());
    assert_eq!(b.x, -20);
}

#[test]
fn step_onto_far_edge_is_accepted() {
    // the acceptance rule is inclusive at the far edge
    let mut b = body(1272, 100, 0, 0, 8, 0);
    assert!(b.update_x());
    assert_eq!(b.x, 1280);
    // one more step goes past the edge and is rejected
    assert!(!b.update_x());
    assert_eq!(b.x, 1280);
}
