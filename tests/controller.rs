use nbody_control::events::{EventCursor, EventLog};
use nbody_control::interaction::{ButtonAction, InteractionState, Key, KeyAction, MouseButton};
use nbody_control::lifecycle::{initialize_bodies, mass_range, sync_positions, Simulation};
use nbody_control::picking::first_hit;

#[derive(Clone, Copy, Debug, PartialEq)]
struct Body {
    x: f64,
    y: f64,
    mass: f64,
    radius: f64,
}

fn draw_body(range: (u32, u32)) -> Body {
    let mass = rand::random::<f64>() * (range.1 - range.0) as f64 + range.0 as f64;
    Body { x: 0.0, y: 0.0, mass, radius: mass / 30.0 }
}

fn hits_at(bodies: &[Body], wx: f64, wy: f64, scale: f64) -> Vec<bool> {
    bodies
        .iter()
        .map(|b| {
            let slop = b.radius * 2.0 + 10.0 * scale;
            (wx - b.x).abs() <= slop && (wy - b.y).abs() <= slop
        })
        .collect()
}

#[test]
fn mass_range_anchor_then_light() {
    assert_eq!(mass_range(0), (500, 1500));
    assert_eq!(mass_range(1), (50, 500));
    assert_eq!(mass_range(99), (50, 500));
}

#[test]
fn initialize_masses_and_radii() {
    let bodies = initialize_bodies(100, draw_body);
    assert_eq!(bodies.len(), 100);
    assert!(bodies[0].mass >= 500.0 && bodies[0].mass <= 1500.0);
    for b in &bodies[1..] {
        assert!(b.mass >= 50.0 && b.mass <= 500.0);
    }
    for b in &bodies {
        assert_eq!(b.radius, b.mass / 30.0);
    }
}

#[test]
fn initialize_zero_bodies() {
    let bodies = initialize_bodies(0, draw_body);
    assert!(bodies.is_empty());
}

#[test]
fn middle_button_zooms() {
    let mut s: InteractionState<(f32, f32)> = InteractionState::new();
    assert_eq!(s.on_mouse_button(MouseButton::Middle, true), ButtonAction::Nothing);
    assert!(s.zooming);
    s.on_mouse_button(MouseButton::Middle, false);
    assert!(!s.zooming);
}

#[test]
fn left_press_pans_and_drops_follow() {
    let mut s: InteractionState<(f32, f32)> = InteractionState::new();
    s.apply_pick(Some(3));
    s.on_mouse_button(MouseButton::Left, true);
    assert!(s.panning);
    assert_eq!(s.follow_body_index, None);
    s.on_mouse_button(MouseButton::Left, false);
    assert!(!s.panning);
}

#[test]
fn right_release_without_cursor_does_nothing() {
    let mut s: InteractionState<(f32, f32)> = InteractionState::new();
    assert_eq!(s.on_mouse_button(MouseButton::Right, false), ButtonAction::Nothing);
    assert_eq!(s.on_mouse_button(MouseButton::Right, true), ButtonAction::Nothing);
    assert_eq!(s.on_mouse_button(MouseButton::Other, false), ButtonAction::Nothing);
}

#[test]
fn right_release_asks_for_pick_at_last_cursor() {
    let mut s: InteractionState<(f32, f32)> = InteractionState::new();
    s.on_cursor_moved(&vec![(1.0, 2.0), (3.0, 4.0)]);
    assert_eq!(s.cursor_position, Some((3.0, 4.0)));
    s.on_cursor_moved(&vec![]);
    assert_eq!(s.cursor_position, Some((3.0, 4.0)));
    assert_eq!(s.on_mouse_button(MouseButton::Right, false), ButtonAction::Pick((3.0, 4.0)));
}

#[test]
fn space_toggles_pause_and_r_resets() {
    let mut s: InteractionState<(f32, f32)> = InteractionState::new();
    assert_eq!(s.on_key(Key::Space, true), KeyAction::Nothing);
    assert!(s.paused);
    assert_eq!(s.on_key(Key::Space, false), KeyAction::Nothing);
    assert!(s.paused);
    s.on_key(Key::Space, true);
    assert!(!s.paused);
    assert_eq!(s.on_key(Key::R, true), KeyAction::Reset);
    assert_eq!(s.on_key(Key::R, false), KeyAction::Nothing);
    assert_eq!(s.on_key(Key::Other, true), KeyAction::Nothing);
}

#[test]
fn first_hit_takes_lowest_index() {
    assert_eq!(first_hit(&vec![false, true, true]), Some(1));
    assert_eq!(first_hit(&vec![false, true, true]), Some(1));
    assert_eq!(first_hit(&vec![true, true]), Some(0));
    assert_eq!(first_hit(&vec![false, false]), None);
    assert_eq!(first_hit(&vec![]), None);
}

#[test]
fn pick_overlapping_bodies() {
    let bodies = vec![
        Body { x: 100.0, y: 100.0, mass: 60.0, radius: 2.0 },
        Body { x: 0.0, y: 0.0, mass: 60.0, radius: 2.0 },
        Body { x: 1.0, y: 1.0, mass: 60.0, radius: 2.0 },
    ];
    let hits = hits_at(&bodies, 0.5, 0.5, 1.0);
    assert_eq!(hits, vec![false, true, true]);
    assert_eq!(first_hit(&hits), Some(1));
}

#[test]
fn paused_step_keeps_snapshot() {
    let mut sim = Simulation::new(vec![1u32, 2, 3]);
    for _ in 0..5 {
        sim.step(true, |s: &Vec<u32>| s.iter().map(|v| v + 1).collect());
    }
    assert_eq!(sim.snapshot, vec![1, 2, 3]);
    sim.step(false, |s: &Vec<u32>| s.iter().map(|v| v + 1).collect());
    assert_eq!(sim.snapshot, vec![2, 3, 4]);
}

#[test]
fn reset_clears_follow() {
    let mut s: InteractionState<(f32, f32)> = InteractionState::new();
    s.apply_pick(Some(0));
    let mut sim = Simulation::new(vec![7u32]);
    assert!(sim.reset(&mut s, Some((1280, 720)), |w, h| vec![w, h]));
    assert_eq!(s.follow_body_index, None);
    assert_eq!(sim.snapshot, vec![1280, 720]);
}

#[test]
fn reset_without_window_is_skipped() {
    let mut s: InteractionState<(f32, f32)> = InteractionState::new();
    s.apply_pick(Some(0));
    let mut sim = Simulation::new(vec![7u32]);
    assert!(!sim.reset(&mut s, None, |w, h| vec![w, h]));
    assert_eq!(s.follow_body_index, Some(0));
    assert_eq!(sim.snapshot, vec![7]);
}

#[test]
fn sync_copies_by_index() {
    let mut visuals = vec![(0.0f32, 0.0f32); 3];
    sync_positions(&mut visuals, &vec![(1.0, 2.0), (3.0, 4.0), (5.0, 6.0)]);
    assert_eq!(visuals, vec![(1.0, 2.0), (3.0, 4.0), (5.0, 6.0)]);
}

#[test]
fn follow_target_in_range_only() {
    let mut s: InteractionState<(f32, f32)> = InteractionState::new();
    assert_eq!(s.follow_target(5), None);
    s.apply_pick(Some(4));
    assert_eq!(s.follow_target(5), Some(4));
    assert_eq!(s.follow_target(4), None);
}

#[test]
fn cursor_reads_each_event_once() {
    let mut log: EventLog<u8> = EventLog::new();
    let mut cursor = EventCursor::new();
    log.send(1);
    log.send(2);
    assert_eq!(cursor.read(&log), (0, 2));
    assert_eq!(cursor.read(&log), (2, 2));
    log.send(3);
    assert_eq!(cursor.read(&log), (2, 3));
    assert_eq!(*log.get(2), 3);
    log.rotate();
    log.send(4);
    assert_eq!(cursor.read(&log), (0, 1));
    assert_eq!(*log.get(0), 4);
}

#[test]
fn two_cursors_are_independent() {
    let mut log: EventLog<u8> = EventLog::new();
    let mut a = EventCursor::new();
    let mut b = EventCursor::new();
    log.send(1);
    assert_eq!(a.read(&log), (0, 1));
    log.send(2);
    assert_eq!(b.read(&log), (0, 2));
    assert_eq!(a.read(&log), (1, 2));
    assert_eq!(log.len(), 2);
}

#[test]
fn one_anchor_body_end_to_end() {
    let scale: f64 = 10.0;
    let bodies = initialize_bodies(1, draw_body);
    assert_eq!(bodies.len(), 1);
    assert!(bodies[0].mass >= 500.0 && bodies[0].mass <= 1500.0);

    let mut s: InteractionState<(f64, f64)> = InteractionState::new();
    s.on_mouse_button(MouseButton::Middle, true);
    assert!(s.zooming);
    let dy: f64 = 500.0;
    let mut new_scale = scale;
    if s.zooming {
        new_scale += (dy / 500.0) * (new_scale / 3.0);
    }
    assert!((new_scale - (scale + scale / 3.0)).abs() < 1e-9);
    s.on_mouse_button(MouseButton::Middle, false);

    s.on_mouse_button(MouseButton::Left, true);
    s.on_mouse_button(MouseButton::Left, false);
    assert!(!s.panning);

    s.on_cursor_moved(&vec![(bodies[0].x, bodies[0].y)]);
    match s.on_mouse_button(MouseButton::Right, false) {
        ButtonAction::Pick((x, y)) => {
            let hit = first_hit(&hits_at(&bodies, x, y, new_scale));
            s.apply_pick(hit);
        }
        ButtonAction::Nothing => panic!("no pick requested"),
    }
    assert_eq!(s.follow_body_index, Some(0));
}
