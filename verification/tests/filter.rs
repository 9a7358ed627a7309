use diagnostics_bridge::filter::keeps_event;

#[test]
fn ordinary_events_are_kept() {
    assert!(keeps_event("swc_ecma_transforms", "fold_module"));
    assert!(keeps_event("", ""));
}

#[test]
fn backend_targets_are_left_out() {
    assert!(!keeps_event("cranelift", "compile"));
    assert!(!keeps_event("cranelift_codegen::context", "compile"));
    assert!(!keeps_event("wasmer::cranelift::backend", "compile"));
}

#[test]
fn bridged_log_events_are_left_out() {
    assert!(!keeps_event("my_crate", "log event"));
    assert!(!keeps_event("my_crate", "a log record"));
}

#[test]
fn markers_must_stand_whole() {
    assert!(keeps_event("crane_lift", "compile"));
    assert!(keeps_event("cranelif", "compile"));
    assert!(keeps_event("my_crate", "log"));
    assert!(keeps_event("my_crate", "logging"));
    assert!(keeps_event("my_crate", "Log event"));
}

#[test]
fn each_marker_counts_only_in_its_own_field() {
    assert!(keeps_event("log target", "cranelift"));
    assert!(!keeps_event("cranelift", "log event"));
}
