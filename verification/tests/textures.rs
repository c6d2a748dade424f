use shoot::texture::{ComponentTexture, TextureInfo};

#[test]
fn size_splits_the_sheet_evenly() {
    let info = TextureInfo { path: "strip.png", total_frame: 4 };
    let t = ComponentTexture::new(7, &info, 64, 48);
    assert_eq!(t.size(), (16, 48));
    assert_eq!(t.total_frame, 4);
    assert_eq!(t.cnt, 0);
    assert_eq!(t.current_frame, 0);
}

#[test]
fn render_nth_addresses_the_requested_frame() {
    let info = TextureInfo { path: "strip.png", total_frame: 4 };
    let t = ComponentTexture::new(7, &info, 64, 48);
    let cmd = t.render_nth(2, (10, 20), -90);
    assert_eq!(cmd.texture_id, 7);
    assert_eq!(cmd.src_x, 32);
    assert_eq!(cmd.src_y, 0);
    assert_eq!(cmd.src_w, 16);
    assert_eq!(cmd.src_h, 48);
    assert_eq!(cmd.dst_x, 10);
    assert_eq!(cmd.dst_y, 20);
    assert_eq!(cmd.dst_w, 32);
    assert_eq!(cmd.dst_h, 96);
    assert_eq!(cmd.angle_deg, -90);
}

#[test]
fn animation_advances_one_frame_per_five_renders() {
    let info = TextureInfo { path: "strip.png", total_frame: 3 };
    let mut t = ComponentTexture::new(0, &info, 48, 16);
    let mut frames: Vec<usize> = Vec::new();
    for _ in 0..15 {
        let cmd = t.render((0, 0), 0);
        frames.push((cmd.src_x / 16) as usize);
    }
    assert_eq!(frames, vec![0, 0, 0, 0, 0, 1, 1, 1, 1, 1, 2, 2, 2, 2, 2]);
    // the cycle wraps back to the first frame
    let cmd = t.render((0, 0), 0);
    assert_eq!(cmd.src_x, 0);
    assert_eq!(t.current_frame, 0);
}

#[test]
fn sibling_handles_animate_independently() {
    // two entities sharing one sheet each hold their own counters: advancing
    // one never moves the other
    let info = TextureInfo { path: "strip.png", total_frame: 2 };
    let template = ComponentTexture::new(3, &info, 32, 16);
    let mut a = template;
    let b = template;
    for _ in 0..5 {
        a.render((0, 0), 0);
    }
    assert_eq!(a.current_frame, 1);
    assert_eq!(b.current_frame, 0);
    assert_eq!(b.cnt, 0);
}
