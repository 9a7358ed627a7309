use diagnostics_bridge::profiler::{
    init_dhat_profiler_js, teardown_dhat_profiler_js, DhatProfilerGuard, ProfilingMode,
};
use diagnostics_bridge::target::get_target_triple;

#[test]
fn startup_notices_name_the_mode() {
    assert_eq!(
        ProfilingMode::Heap.startup_notice(),
        Some(String::from("[dhat-heap]: Initializing heap profiler"))
    );
    assert_eq!(
        ProfilingMode::AdHoc.startup_notice(),
        Some(String::from("[dhat-ad-hoc]: Initializing ad-hoc profiler"))
    );
    assert_eq!(ProfilingMode::Disabled.startup_notice(), None);
}

#[test]
fn try_init_makes_a_guard_for_a_started_session() {
    assert!(DhatProfilerGuard::try_init(ProfilingMode::Heap, Some(1u8)).is_some());
    assert!(DhatProfilerGuard::try_init(ProfilingMode::AdHoc, Some(2u8)).is_some());
}

#[test]
fn try_init_without_profiling_makes_no_guard() {
    assert!(DhatProfilerGuard::<u8>::try_init(ProfilingMode::Disabled, None).is_none());
    assert!(DhatProfilerGuard::try_init(ProfilingMode::Disabled, Some(3u8)).is_none());
    assert!(DhatProfilerGuard::<u8>::try_init(ProfilingMode::Heap, None).is_none());
}

#[test]
fn finish_hands_out_the_session_and_the_notice() {
    let guard = DhatProfilerGuard::try_init(ProfilingMode::Heap, Some(9u8)).unwrap();
    let teardown = guard.finish();
    assert_eq!(teardown.notice, "[dhat]: Teardown profiler");
    assert_eq!(teardown.session, 9);
}

#[test]
fn profiler_session_is_torn_down_once() {
    let mut handle = init_dhat_profiler_js(ProfilingMode::AdHoc, Some(5u8));
    assert!(handle.is_held());
    let teardown = teardown_dhat_profiler_js(&mut handle).unwrap();
    assert_eq!(teardown.notice, "[dhat]: Teardown profiler");
    assert_eq!(teardown.session, 5);
    assert!(!handle.is_held());
    assert!(teardown_dhat_profiler_js(&mut handle).is_none());
}

#[test]
fn a_build_without_profiling_gets_an_inert_handle() {
    let mut handle = init_dhat_profiler_js::<u8>(ProfilingMode::Disabled, None);
    assert!(!handle.is_held());
    assert!(teardown_dhat_profiler_js(&mut handle).is_none());
    assert!(!handle.is_held());
    assert!(teardown_dhat_profiler_js(&mut handle).is_none());
}

#[test]
fn target_triple_is_the_one_recorded() {
    assert_eq!(get_target_triple("x86_64-unknown-linux-gnu"), "x86_64-unknown-linux-gnu");
    assert_eq!(get_target_triple(""), "");
}
