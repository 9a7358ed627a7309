use diagnostics_bridge::profiler::{
    init_dhat_profiler_js, teardown_dhat_profiler_js, ProfilingMode,
};

#[test]
fn a_real_profiler_session_is_held_and_ended_once() {
    let mode = ProfilingMode::AdHoc;
    assert_eq!(
        mode.startup_notice(),
        Some(String::from("[dhat-ad-hoc]: Initializing ad-hoc profiler"))
    );
    let session = dhat::Profiler::builder().ad_hoc().testing().build();
    let mut handle = init_dhat_profiler_js(mode, Some(session));
    assert!(handle.is_held());

    dhat::ad_hoc_event(3);
    let stats = dhat::AdHocStats::get();
    assert_eq!(stats.total_events, 1);
    assert_eq!(stats.total_units, 3);

    let teardown = teardown_dhat_profiler_js(&mut handle).unwrap();
    assert_eq!(teardown.notice, "[dhat]: Teardown profiler");
    drop(teardown.session);
    assert!(!handle.is_held());
    assert!(teardown_dhat_profiler_js(&mut handle).is_none());
}
