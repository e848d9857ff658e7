use rinf::{background_steps, start_steps, stop_rust_logic_extern, ShutdownDropper, ShutdownEvents, Step};

fn run(events: &mut ShutdownEvents, steps: &[Step]) -> bool {
    steps.iter().all(|s| events.apply(*s))
}

#[test]
fn stopping_many_times_equals_once() {
    let mut once = ShutdownEvents::new();
    stop_rust_logic_extern(&mut once);
    let mut many = ShutdownEvents::new();
    for _ in 0..5 {
        stop_rust_logic_extern(&mut many);
    }
    assert_eq!(once, many);
    assert!(many.dart_stopped);
    assert!(!many.rust_stopped);
}

#[test]
fn wait_is_held_back_until_core_stops() {
    let mut events = ShutdownEvents::new();
    assert!(!events.apply(Step::WaitRustStopped));
    assert_eq!(events, ShutdownEvents::new());
    assert!(events.apply(Step::SetRustStopped));
    assert!(events.apply(Step::WaitRustStopped));
}

#[test]
fn main_loop_sees_stop_on_next_pass() {
    let mut events = ShutdownEvents::new();
    assert!(events.keeps_running());
    stop_rust_logic_extern(&mut events);
    assert!(!events.keeps_running());
    assert!(events.apply(Step::SetRustStopped));
    assert!(events.is_finished());
}

#[test]
fn finalizer_does_not_block_after_main_returns() {
    for debug in [false, true] {
        let mut events = ShutdownEvents::new();
        assert!(run(&mut events, &background_steps(debug)));
        assert!(run(&mut events, &ShutdownDropper.drop_steps()));
        assert!(events.is_finished());
    }
}

#[test]
fn debug_background_plan_order() {
    assert_eq!(
        background_steps(true),
        vec![
            Step::SetDartStopped,
            Step::ClearDartStopped,
            Step::ClearRustStopped,
            Step::RunMain,
            Step::SetRustStopped,
        ]
    );
    assert_eq!(background_steps(false), vec![Step::RunMain, Step::SetRustStopped]);
    assert_eq!(ShutdownDropper.drop_steps(), vec![Step::SetDartStopped, Step::WaitRustStopped]);
}

#[test]
fn restart_sees_fresh_pair() {
    let mut events = ShutdownEvents::new();
    assert!(run(&mut events, &background_steps(true)));
    stop_rust_logic_extern(&mut events);
    assert!(events.is_finished());
    let steps = background_steps(true);
    assert!(run(&mut events, &steps[..3]));
    assert_eq!(events, ShutdownEvents::new());
    assert!(events.keeps_running());
    assert!(run(&mut events, &steps[3..]));
    let mut first = ShutdownEvents::new();
    assert!(run(&mut first, &background_steps(true)));
    assert_eq!(events, first);
}

#[test]
fn start_clears_stale_pair_before_spawn() {
    let mut events = ShutdownEvents::new();
    assert!(run(&mut events, &background_steps(true)));
    assert!(run(&mut events, &ShutdownDropper.drop_steps()));
    assert!(events.is_finished());
    assert!(run(&mut events, &start_steps(true)));
    assert_eq!(events, ShutdownEvents::new());
    assert!(events.apply(Step::SetDartStopped));
    assert!(!events.apply(Step::WaitRustStopped));
    assert_eq!(
        start_steps(true),
        vec![Step::SetDartStopped, Step::ClearDartStopped, Step::ClearRustStopped]
    );
    assert!(start_steps(false).is_empty());
}
