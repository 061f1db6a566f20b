use d3d9_hook_imgui_rs::{D3D9RenderLoop, HookError, KeySample, UnloadAction, UnloadLatch};

#[test]
fn first_request_with_a_handle_starts_a_worker() {
    let mut latch = UnloadLatch::new();
    assert!(!latch.is_engaged());
    assert_eq!(
        latch.request(Some(0x7ff6_0000)),
        Ok(UnloadAction::DetachOnWorker { module: 0x7ff6_0000 })
    );
    assert!(latch.is_engaged());
}

#[test]
fn the_handle_crosses_to_the_worker_bit_for_bit() {
    for module in [1usize, 0x10, 0xdead_beef, usize::MAX] {
        let mut latch = UnloadLatch::new();
        assert_eq!(latch.request(Some(module)), Ok(UnloadAction::DetachOnWorker { module }));
    }
}

#[test]
fn two_requests_in_a_row_detach_once() {
    let mut overlay = D3D9RenderLoop::default();
    let mut detach_calls = 0;
    for _ in 0..2 {
        if let Ok(UnloadAction::DetachOnWorker { .. }) = overlay.unload_dll(Some(0x4000)) {
            detach_calls += 1;
        }
    }
    assert_eq!(detach_calls, 1);
    assert!(overlay.is_unloading());
}

#[test]
fn second_request_is_a_no_op_whatever_the_lookup_gave() {
    let mut overlay = D3D9RenderLoop::default();
    assert_eq!(overlay.unload_dll(Some(7)), Ok(UnloadAction::DetachOnWorker { module: 7 }));
    assert_eq!(overlay.unload_dll(Some(9)), Ok(UnloadAction::AlreadyUnloading));
    assert_eq!(overlay.unload_dll(None), Ok(UnloadAction::AlreadyUnloading));
}

#[test]
fn failed_lookup_aborts_the_unload_and_leaves_the_overlay_running() {
    let mut overlay = D3D9RenderLoop::default();
    assert_eq!(overlay.unload_dll(None), Err(HookError::SelfHandleUnavailable));
    assert!(!overlay.is_unloading());
    assert!(overlay.display_menu());
    overlay.apply_keys(KeySample { toggle_down: true, unload_down: false });
    assert!(!overlay.display_menu());
}

#[test]
fn a_request_after_a_failed_lookup_may_succeed() {
    let mut overlay = D3D9RenderLoop::default();
    assert_eq!(overlay.unload_dll(None), Err(HookError::SelfHandleUnavailable));
    assert_eq!(overlay.unload_dll(None), Err(HookError::SelfHandleUnavailable));
    assert_eq!(overlay.unload_dll(Some(3)), Ok(UnloadAction::DetachOnWorker { module: 3 }));
    assert_eq!(overlay.unload_dll(Some(3)), Ok(UnloadAction::AlreadyUnloading));
}

#[test]
fn many_requests_detach_at_most_once() {
    let lookups = [None, Some(1usize), None, Some(2), Some(3), None, Some(4)];
    let mut latch = UnloadLatch::new();
    let mut detached: Vec<usize> = Vec::new();
    for lookup in lookups {
        if let Ok(UnloadAction::DetachOnWorker { module }) = latch.request(lookup) {
            detached.push(module);
        }
    }
    assert_eq!(detached, vec![1]);
}

#[test]
fn the_unload_key_drives_one_detach_over_two_presses() {
    let mut overlay = D3D9RenderLoop::default();
    let mut detach_calls = 0;
    for down in [true, false, true, false] {
        if overlay.apply_keys(KeySample { toggle_down: false, unload_down: down }) {
            if let Ok(UnloadAction::DetachOnWorker { .. }) = overlay.unload_dll(Some(0x5000)) {
                detach_calls += 1;
            }
        }
    }
    assert_eq!(detach_calls, 1);
}
