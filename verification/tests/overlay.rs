use d3d9_hook_imgui_rs::{D3D9RenderLoop, FramePlan, KeySample};

fn toggle(down: bool) -> KeySample {
    KeySample { toggle_down: down, unload_down: false }
}

fn unload(down: bool) -> KeySample {
    KeySample { toggle_down: false, unload_down: down }
}

#[test]
fn fresh_overlay_shows_the_menu_and_has_seen_no_key() {
    let overlay = D3D9RenderLoop::default();
    assert!(overlay.display_menu());
    assert!(!overlay.last_insert_state());
    assert!(!overlay.last_end_state());
    assert!(!overlay.is_unloading());
}

#[test]
fn down_down_up_down_toggles_on_the_first_and_fourth_frame_only() {
    let mut overlay = D3D9RenderLoop::default();
    let mut toggled_at: Vec<usize> = Vec::new();
    let keys = [true, true, false, true];
    for (i, down) in keys.iter().enumerate() {
        let before = overlay.display_menu();
        overlay.apply_keys(toggle(*down));
        if overlay.display_menu() != before {
            toggled_at.push(i + 1);
        }
    }
    assert_eq!(toggled_at, vec![1, 4]);
    assert!(overlay.display_menu());
}

#[test]
fn a_held_key_toggles_once() {
    let mut overlay = D3D9RenderLoop::default();
    overlay.apply_keys(toggle(true));
    assert!(!overlay.display_menu());
    for _ in 0..100 {
        overlay.apply_keys(toggle(true));
        assert!(!overlay.display_menu());
    }
}

#[test]
fn releasing_the_key_does_not_toggle() {
    let mut overlay = D3D9RenderLoop::default();
    overlay.apply_keys(toggle(true));
    assert!(!overlay.display_menu());
    overlay.apply_keys(toggle(false));
    assert!(!overlay.display_menu());
    overlay.apply_keys(toggle(false));
    assert!(!overlay.display_menu());
}

#[test]
fn after_down_down_the_key_is_remembered_down_and_toggled_once() {
    let mut overlay = D3D9RenderLoop::default();
    overlay.apply_keys(toggle(true));
    let after_first = overlay.display_menu();
    overlay.apply_keys(toggle(true));
    assert!(overlay.last_insert_state());
    assert_eq!(overlay.display_menu(), after_first);
    assert!(!overlay.display_menu());
}

#[test]
fn key_states_are_stored_on_every_frame() {
    let mut overlay = D3D9RenderLoop::default();
    let samples = [(false, false), (true, false), (true, true), (false, true), (false, false)];
    for (t, u) in samples {
        overlay.apply_keys(KeySample { toggle_down: t, unload_down: u });
        assert_eq!(overlay.last_insert_state(), t);
        assert_eq!(overlay.last_end_state(), u);
    }
}

#[test]
fn unload_is_requested_on_the_rising_edge_only() {
    let mut overlay = D3D9RenderLoop::default();
    assert!(!overlay.apply_keys(unload(false)));
    assert!(overlay.apply_keys(unload(true)));
    assert!(!overlay.apply_keys(unload(true)));
    assert!(!overlay.apply_keys(unload(false)));
    assert!(overlay.apply_keys(unload(true)));
}

#[test]
fn the_unload_key_leaves_the_menu_alone() {
    let mut overlay = D3D9RenderLoop::default();
    overlay.apply_keys(unload(true));
    assert!(overlay.display_menu());
    assert!(!overlay.is_unloading());
}

#[test]
fn both_keys_on_one_frame_act_together() {
    let mut overlay = D3D9RenderLoop::default();
    let frame = overlay.plan_frame(KeySample { toggle_down: true, unload_down: true });
    assert_eq!(frame, FramePlan { unload_requested: true, draw_menu: false });
}

#[test]
fn the_plan_draws_the_menu_while_it_is_visible() {
    let mut overlay = D3D9RenderLoop::default();
    let idle = overlay.plan_frame(toggle(false));
    assert_eq!(idle, FramePlan { unload_requested: false, draw_menu: true });
    let hidden = overlay.plan_frame(toggle(true));
    assert_eq!(hidden, FramePlan { unload_requested: false, draw_menu: false });
    let held = overlay.plan_frame(toggle(true));
    assert_eq!(held, FramePlan { unload_requested: false, draw_menu: false });
    overlay.plan_frame(toggle(false));
    let shown = overlay.plan_frame(toggle(true));
    assert_eq!(shown, FramePlan { unload_requested: false, draw_menu: true });
}

#[test]
fn visibility_after_a_run_follows_the_parity_of_rising_edges() {
    let runs: [(&[bool], usize); 5] = [
        (&[], 0),
        (&[false, false], 0),
        (&[true, false, true], 2),
        (&[true, false, true, false, true, true], 3),
        (&[false, true, true, true, false], 1),
    ];
    for (keys, edges) in runs {
        let mut overlay = D3D9RenderLoop::default();
        let mut flips = 0;
        for down in keys {
            let before = overlay.display_menu();
            overlay.apply_keys(toggle(*down));
            if overlay.display_menu() != before {
                flips += 1;
            }
        }
        assert_eq!(flips, edges);
        assert_eq!(overlay.display_menu(), edges % 2 == 0);
    }
}

#[test]
fn frames_do_not_touch_the_unload_latch() {
    let mut overlay = D3D9RenderLoop::default();
    assert!(overlay.unload_dll(Some(0x1000)).is_ok());
    assert!(overlay.is_unloading());
    overlay.apply_keys(KeySample { toggle_down: true, unload_down: true });
    overlay.apply_keys(KeySample { toggle_down: false, unload_down: false });
    assert!(overlay.is_unloading());
}
