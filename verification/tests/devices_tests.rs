use songrec::devices::{app_list, device_list, own_stream_index, stream_to_move, SinkApp, SourceDevice};

fn dev(name: Option<&str>, desc: Option<&str>, monitor: bool) -> SourceDevice {
    SourceDevice {
        name: name.map(|s| s.to_string()),
        description: desc.map(|s| s.to_string()),
        is_monitor: monitor,
    }
}

fn app(index: u32, name: Option<&str>, props: Option<&str>) -> SinkApp {
    SinkApp {
        index,
        name: name.map(|s| s.to_string()),
        proplist: props.map(|s| s.to_string()),
    }
}

#[test]
fn default_source_first_then_sources_then_monitors() {
    let devices = vec![
        dev(Some("sink.monitor"), Some("Monitor of Speakers"), true),
        dev(Some("mic1"), Some("USB Mic"), false),
        dev(None, Some("Nameless"), false),
        dev(Some("mic2"), None, false),
        dev(Some("builtin"), Some("Built-in"), false),
        dev(Some("hdmi.monitor"), Some("Monitor of HDMI"), true),
    ];
    let list = device_list(Some(Some("builtin".to_string())), Some(devices));
    let names: Vec<&str> = list.iter().map(|d| d.inner_name.as_str()).collect();
    assert_eq!(names, vec!["builtin", "mic1", "sink.monitor", "hdmi.monitor"]);
    assert_eq!(list[0].display_name, "Built-in");
    assert!(!list[0].is_monitor);
    assert!(list[2].is_monitor && list[3].is_monitor);
}

#[test]
fn a_monitor_can_be_the_default() {
    let devices = vec![dev(Some("mic"), Some("Mic"), false), dev(Some("m"), Some("Monitor"), true)];
    let list = device_list(Some(Some("m".to_string())), Some(devices));
    assert_eq!(list[0].inner_name, "m");
    assert!(list[0].is_monitor);
    assert_eq!(list[1].inner_name, "mic");
}

#[test]
fn no_server_or_no_devices_gives_no_list() {
    assert!(device_list(None, Some(vec![dev(Some("a"), Some("A"), false)])).is_empty());
    assert!(device_list(Some(None), None).is_empty());
    let list = device_list(Some(None), Some(vec![dev(Some("a"), Some("A"), false)]));
    assert_eq!(list.len(), 1);
}

#[test]
fn the_program_itself_is_not_offered() {
    let apps = vec![
        app(1, Some("Firefox"), Some("application.name = \"Firefox\"\nprocess.id = \"100\"")),
        app(2, Some("SongRec"), Some("application.name = \"SONGREC\"")),
        app(3, None, Some("process.id = \"4242\"")),
        app(4, None, None),
        app(5, Some("mpv"), Some("process.id = \"42420\"")),
    ];
    let list = app_list(Some(apps), 4242);
    let got: Vec<(u32, &str)> = list.iter().map(|a| (a.index, a.display_name.as_str())).collect();
    assert_eq!(got, vec![(1, "Firefox"), (4, "Unknown Application"), (5, "mpv")]);
    assert!(app_list(None, 1).is_empty());
}

#[test]
fn the_own_stream_is_found_by_the_most_telling_criterion() {
    let apps = vec![
        app(7, None, Some("media.name = \"songrec\"")),
        app(8, None, Some("alsa plug-in [songrec]")),
        app(9, None, Some("process.id = \"4242\"")),
    ];
    assert_eq!(own_stream_index(&apps, 4242), Some(9));
    assert_eq!(own_stream_index(&apps, 1), Some(8));
    let apps = vec![app(3, None, Some("x 4242 y")), app(4, None, Some("nothing"))];
    assert_eq!(own_stream_index(&apps, 4242), Some(3));
    assert_eq!(own_stream_index(&apps, 5), None);
}

#[test]
fn the_stream_moves_only_to_a_listed_device() {
    let devices = vec![dev(Some("a"), Some("A"), false), dev(None, None, false)];
    assert_eq!(stream_to_move(&devices, "a", Some(3)), Some(3));
    assert_eq!(stream_to_move(&devices, "b", Some(3)), None);
    assert_eq!(stream_to_move(&devices, "a", None), None);
}
