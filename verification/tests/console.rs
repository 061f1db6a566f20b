use d3d9_hook_imgui_rs::console::{ConsoleAction, ConsoleSetup, ConsolePhase};
use d3d9_hook_imgui_rs::HookError;

#[test]
fn a_new_setup_is_untouched() {
    assert_eq!(ConsoleSetup::new().phase(), ConsolePhase::Untouched);
}

#[test]
fn only_the_first_request_allocates() {
    for n in 1..50 {
        let mut setup = ConsoleSetup::new();
        let mut attempts = 0;
        for _ in 0..n {
            if setup.ensure_console_initialized() == ConsoleAction::Allocate {
                attempts += 1;
            }
        }
        assert_eq!(attempts, 1);
    }
}

#[test]
fn the_first_request_is_the_one_that_allocates() {
    let mut setup = ConsoleSetup::new();
    assert_eq!(setup.ensure_console_initialized(), ConsoleAction::Allocate);
    assert_eq!(setup.phase(), ConsolePhase::Allocating);
    assert_eq!(setup.ensure_console_initialized(), ConsoleAction::Nothing);
    assert_eq!(setup.phase(), ConsolePhase::Allocating);
}

#[test]
fn a_fresh_console_gets_its_colours() {
    let mut setup = ConsoleSetup::new();
    setup.ensure_console_initialized();
    assert_eq!(setup.allocation_finished(true), Ok(ConsoleAction::EnableColors));
    assert_eq!(setup.phase(), ConsolePhase::Ready);
    assert_eq!(setup.ensure_console_initialized(), ConsoleAction::Nothing);
}

#[test]
fn a_failed_allocation_is_reported_and_not_retried() {
    let mut setup = ConsoleSetup::new();
    setup.ensure_console_initialized();
    assert_eq!(setup.allocation_finished(false), Err(HookError::ConsoleAlreadyPresent));
    assert_eq!(setup.phase(), ConsolePhase::Unavailable);
    assert_eq!(setup.ensure_console_initialized(), ConsoleAction::Nothing);
    assert_eq!(setup.phase(), ConsolePhase::Unavailable);
}

#[test]
fn a_report_nobody_asked_for_changes_nothing() {
    let mut setup = ConsoleSetup::new();
    assert_eq!(setup.allocation_finished(true), Ok(ConsoleAction::Nothing));
    assert_eq!(setup.allocation_finished(false), Ok(ConsoleAction::Nothing));
    assert_eq!(setup.phase(), ConsolePhase::Untouched);
    assert_eq!(setup.ensure_console_initialized(), ConsoleAction::Allocate);
    assert_eq!(setup.allocation_finished(true), Ok(ConsoleAction::EnableColors));
    assert_eq!(setup.allocation_finished(true), Ok(ConsoleAction::Nothing));
    assert_eq!(setup.allocation_finished(false), Ok(ConsoleAction::Nothing));
    assert_eq!(setup.phase(), ConsolePhase::Ready);
}

#[test]
fn requests_and_reports_in_any_order_allocate_once() {
    let calls = [None, Some(true), None, Some(false), None, None, Some(true)];
    for start in 0..calls.len() {
        let mut setup = ConsoleSetup::new();
        let mut attempts = 0;
        let mut asked = false;
        for i in 0..calls.len() {
            match calls[(start + i) % calls.len()] {
                None => {
                    asked = true;
                    if setup.ensure_console_initialized() == ConsoleAction::Allocate {
                        attempts += 1;
                    }
                }
                Some(allocated) => {
                    let _ = setup.allocation_finished(allocated);
                }
            }
        }
        assert!(asked);
        assert_eq!(attempts, 1);
        assert_ne!(setup.phase(), ConsolePhase::Untouched);
    }
}
