use blobs::panel::Panel;
use blobs::particle::Particle;
use blobs::world::World;

fn no_jitter() -> Vec<(i64, i64)> {
    Vec::new()
}

#[test]
fn reconcile_reaches_any_target() {
    let mut w = World::new();
    for target in [0usize, 1, 3, 10, 47, 5, 0, 12] {
        w.reconcile(target);
        assert_eq!(w.len(), target);
    }
}

#[test]
fn scenario_three_at_pointer() {
    // Target 3 with the pointer at (100, 100): three particles at the
    // pointer, at rest; one jitter-free frame leaves them in place.
    let mut w = World::new();
    w.set_pointer(100_000, 100_000);
    w.reconcile(3);
    assert_eq!(w.len(), 3);
    for i in 0..3 {
        let p = w.particle_at(i);
        assert_eq!((p.x, p.y), (100_000, 100_000));
        assert_eq!((p.vx, p.vy), (0, 0));
    }
    let cmds = w.step(&no_jitter());
    assert_eq!(cmds.len(), 3);
    for i in 0..3 {
        let p = w.particle_at(i);
        assert_eq!((p.x, p.y), (100_000, 100_000));
        assert_eq!((p.vx, p.vy), (0, 0));
        assert_eq!(cmds[i].radius, 3000);
    }
}

#[test]
fn displaced_particle_moves_toward_pointer() {
    let mut w = World::new();
    w.reconcile(1);
    w.set_pointer(100_000, 0);
    // Index 0 tuning: stiffness 15, friction 880.
    // Velocity: ((100000 * 15 / 1000) * 880) / 1000 = 1320.
    let cmds = w.step(&no_jitter());
    let p = w.particle_at(0);
    assert_eq!(p.vx, 1320);
    assert_eq!(p.x, 1320);
    assert_eq!(p.vy, 0);
    assert_eq!(p.y, 0);
    // The radius reflects the distance before the move: 100 pixels.
    assert_eq!(cmds[0].radius, 5000);
    assert_eq!(cmds[0].x, 1320);
    // A second frame keeps closing in.
    w.step(&no_jitter());
    let p = w.particle_at(0);
    assert_eq!(p.vx, 2464);
    assert_eq!(p.x, 3784);
}

#[test]
fn growth_appends_at_pointer_and_keeps_the_rest() {
    let mut w = World::new();
    w.set_pointer(10_000, 20_000);
    w.reconcile(5);
    let before: Vec<Particle> = (0..5).map(|i| w.particle_at(i)).collect();
    w.set_pointer(-40_000, 50_000);
    w.reconcile(7);
    assert_eq!(w.len(), 7);
    for i in 0..5 {
        assert_eq!(w.particle_at(i), before[i]);
    }
    for i in 5..7 {
        let p = w.particle_at(i);
        assert_eq!((p.x, p.y), (-40_000, 50_000));
        assert_eq!((p.vx, p.vy), (0, 0));
    }
}

#[test]
fn shrinking_removes_the_most_recent() {
    let mut w = World::new();
    w.set_pointer(10_000, 20_000);
    w.reconcile(6);
    w.step(&no_jitter());
    let before: Vec<Particle> = (0..6).map(|i| w.particle_at(i)).collect();
    w.reconcile(2);
    assert_eq!(w.len(), 2);
    for i in 0..2 {
        assert_eq!(w.particle_at(i), before[i]);
    }
}

#[test]
fn tuning_is_fixed_for_life() {
    let mut w = World::new();
    w.set_pointer(30_000, -20_000);
    w.reconcile(4);
    let tunings: Vec<(i64, i64, u32)> =
        (0..4).map(|i| {
            let p = w.particle_at(i);
            (p.stiffness, p.friction, p.hue)
        }).collect();
    w.step(&vec![(100, -100), (0, 0), (500, 500), (-9000, 3)]);
    w.set_pointer(0, 0);
    w.step(&no_jitter());
    w.step(&vec![(1, 2)]);
    for i in 0..4 {
        let p = w.particle_at(i);
        assert_eq!((p.stiffness, p.friction, p.hue), tunings[i]);
    }
}

#[test]
fn index_derived_tuning_values() {
    let mut w = World::new();
    w.reconcile(31);
    // Index 0: oscillation phase 0.
    let p0 = w.particle_at(0);
    assert_eq!((p0.stiffness, p0.friction, p0.hue), (15, 880, 0));
    // Index 1: phase 70 gives friction 880 + 70 * 40 / 1000 = 882.
    let p1 = w.particle_at(1);
    assert_eq!((p1.stiffness, p1.friction, p1.hue), (15, 882, 13));
    // Index 20: phase 1400 folds to 600; stiffness 18, friction 904.
    let p20 = w.particle_at(20);
    assert_eq!((p20.stiffness, p20.friction, p20.hue), (18, 904, 260));
    // Index 30: phase 2100 folds to -100; hue 390 wraps to 30.
    let p30 = w.particle_at(30);
    assert_eq!((p30.stiffness, p30.friction, p30.hue), (15, 876, 30));
}

#[test]
fn damping_shrinks_velocity_at_the_pointer() {
    let mut p = Particle {
        x: 0,
        y: 0,
        vx: 1000,
        vy: -2000,
        hue: 0,
        stiffness: 15,
        friction: 880,
    };
    p.step(0, 0, 0, 0);
    assert_eq!((p.vx, p.vy), (880, -1760));
    assert_eq!((p.x, p.y), (880, -1760));
    let mag = |vx: i64, vy: i64| vx * vx + vy * vy;
    let mut prev = mag(1000, -2000);
    for _ in 0..20 {
        let m = mag(p.vx, p.vy);
        assert!(m < prev || (m == 0 && prev == 0));
        prev = m;
        let (x, y) = (p.x, p.y);
        p.step(x, y, 0, 0);
    }
}

#[test]
fn jitter_is_clamped_to_half_a_pixel() {
    let mut w = World::new();
    w.reconcile(1);
    // At the pointer with no velocity, only the jitter drives the frame:
    // (500 * 880) / 1000 = 440 on each axis after clamping.
    w.step(&vec![(10_000, -700)]);
    let p = w.particle_at(0);
    assert_eq!((p.vx, p.vy), (440, -440));
    assert_eq!((p.x, p.y), (440, -440));
}

#[test]
fn short_jitter_list_means_no_jitter() {
    let mut w = World::new();
    w.reconcile(2);
    w.step(&vec![(500, 500)]);
    let p = w.particle_at(1);
    assert_eq!((p.vx, p.vy), (0, 0));
}

#[test]
fn pointer_is_clamped_to_range() {
    let mut w = World::new();
    w.set_pointer(2_000_000_000, -2_000_000_000);
    assert_eq!(w.pointer(), (1_000_000_000, -1_000_000_000));
    w.set_pointer(123, -456);
    assert_eq!(w.pointer(), (123, -456));
}

#[test]
fn draw_order_follows_collection_order() {
    let mut w = World::new();
    w.reconcile(5);
    let cmds = w.step(&no_jitter());
    assert_eq!(cmds.len(), 5);
    for (i, c) in cmds.iter().enumerate() {
        assert_eq!(c.hue, w.particle_at(i).hue);
    }
}

#[test]
fn panel_clamps_to_slider_range() {
    let mut p = Panel::new();
    assert_eq!(p.value(), 0);
    p.set_value(50_000);
    assert_eq!(p.value(), 50_000);
    p.set_value(-1);
    assert_eq!(p.value(), 0);
    p.set_value(200_000);
    assert_eq!(p.value(), 100_000);
}
