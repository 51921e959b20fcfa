use songrec::capture::{AppCapture, CaptureAction, CaptureEvent, CapturePhase, MoveOutcome};

fn pactl_args(a: &CaptureAction) -> Vec<String> {
    match a {
        CaptureAction::RunPactl(args) => args.clone(),
        _ => panic!("expected a pactl command"),
    }
}

fn done(out: Option<&str>) -> CaptureEvent {
    CaptureEvent::PactlDone(out.map(|s| s.to_string()))
}

#[test]
fn a_capture_starts_and_stops() {
    let mut c = AppCapture::new(4242);
    let a = c.start_app_capture(17);
    assert_eq!(
        pactl_args(&a),
        vec![
            "load-module",
            "module-null-sink",
            "sink_name=songrec_cap_4242",
            "sink_properties=device.description=\"SongRec\\ Capture\""
        ]
    );
    let a = c.step(done(Some("31")));
    assert!(matches!(a, CaptureAction::QueryDefaultSink));
    let a = c.step(CaptureEvent::DefaultSink(Some("alsa_output.speakers".to_string())));
    assert_eq!(
        pactl_args(&a),
        vec![
            "load-module",
            "module-loopback",
            "source=songrec_cap_4242.monitor",
            "sink=alsa_output.speakers",
            "latency_msec=1"
        ]
    );
    let a = c.step(done(Some("32")));
    match a {
        CaptureAction::MoveStream { stream, sink } => {
            assert_eq!(stream, 17);
            assert_eq!(sink, "songrec_cap_4242");
        }
        _ => panic!("expected a move"),
    }
    let a = c.step(CaptureEvent::Moved(MoveOutcome::Moved));
    assert!(matches!(a, CaptureAction::Started(Some(ref s)) if s == "songrec_cap_4242.monitor"));
    assert_eq!(c.null_sink_module, Some(31));
    assert_eq!(c.loopback_module, Some(32));
    assert_eq!(c.sink_input_index, Some(17));

    let a = c.stop_app_capture();
    assert_eq!(pactl_args(&a), vec!["unload-module", "32"]);
    let a = c.step(done(None));
    assert_eq!(pactl_args(&a), vec!["unload-module", "31"]);
    let a = c.step(done(None));
    assert!(matches!(a, CaptureAction::Stopped));
    assert_eq!((c.null_sink_module, c.loopback_module, c.sink_input_index), (None, None, None));
    assert!(c.phase == CapturePhase::Idle);
}

#[test]
fn stopping_without_a_capture_does_nothing() {
    let mut c = AppCapture::new(1);
    assert!(matches!(c.stop_app_capture(), CaptureAction::Stopped));
    assert!(c.phase == CapturePhase::Idle);
}

#[test]
fn no_default_sink_means_no_loopback() {
    let mut c = AppCapture::new(1);
    c.start_app_capture(5);
    c.step(done(Some("10")));
    let a = c.step(CaptureEvent::DefaultSink(None));
    assert!(matches!(a, CaptureAction::MoveStream { stream: 5, .. }));
    let a = c.step(CaptureEvent::Moved(MoveOutcome::Moved));
    assert!(matches!(a, CaptureAction::Started(Some(_))));
    assert_eq!(c.loopback_module, None);
    assert_eq!(c.null_sink_module, Some(10));
}

#[test]
fn an_unreadable_module_index_ends_the_start() {
    let mut c = AppCapture::new(1);
    c.start_app_capture(5);
    let a = c.step(done(Some("oops")));
    assert!(matches!(a, CaptureAction::Started(None)));
    let mut c = AppCapture::new(1);
    c.start_app_capture(5);
    assert!(matches!(c.step(done(None)), CaptureAction::Started(None)));
    assert_eq!(c.null_sink_module, None);
}

#[test]
fn a_refused_move_unloads_loopback_then_null_sink() {
    let mut c = AppCapture::new(1);
    c.start_app_capture(5);
    c.step(done(Some("10")));
    c.step(CaptureEvent::DefaultSink(Some("spk".to_string())));
    c.step(done(Some("11")));
    let a = c.step(CaptureEvent::Moved(MoveOutcome::Failed));
    assert_eq!(pactl_args(&a), vec!["unload-module", "11"]);
    let a = c.step(done(None));
    assert_eq!(pactl_args(&a), vec!["unload-module", "10"]);
    assert!(matches!(c.step(done(None)), CaptureAction::Started(None)));
    assert_eq!((c.null_sink_module, c.loopback_module, c.sink_input_index), (None, None, None));
}

#[test]
fn no_connection_for_the_move_unloads_only_the_null_sink() {
    let mut c = AppCapture::new(1);
    c.start_app_capture(5);
    c.step(done(Some("10")));
    c.step(CaptureEvent::DefaultSink(Some("spk".to_string())));
    c.step(done(Some("11")));
    let a = c.step(CaptureEvent::Moved(MoveOutcome::NoController));
    assert_eq!(pactl_args(&a), vec!["unload-module", "10"]);
    assert!(matches!(c.step(done(None)), CaptureAction::Started(None)));
}

#[test]
fn starting_again_stops_the_running_capture_first() {
    let mut c = AppCapture::new(9);
    c.start_app_capture(5);
    c.step(done(Some("10")));
    c.step(CaptureEvent::DefaultSink(None));
    c.step(CaptureEvent::Moved(MoveOutcome::Moved));
    let a = c.start_app_capture(6);
    assert_eq!(pactl_args(&a), vec!["unload-module", "10"]);
    let a = c.step(done(None));
    assert_eq!(pactl_args(&a)[1], "module-null-sink");
    assert_eq!(c.sink_input_index, None);
}

#[test]
fn events_out_of_turn_are_ignored() {
    let mut c = AppCapture::new(1);
    assert!(matches!(c.step(CaptureEvent::Moved(MoveOutcome::Moved)), CaptureAction::Ignored));
    c.start_app_capture(2);
    assert!(matches!(c.start_app_capture(3), CaptureAction::Ignored));
    assert!(matches!(c.step(CaptureEvent::DefaultSink(None)), CaptureAction::Ignored));
}
