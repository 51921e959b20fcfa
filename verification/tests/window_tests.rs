use songrec::history::RecognitionHistoryInterface;
use songrec::listed_app::{ListedApp, ALL_APPLICATIONS};
use songrec::messages::{DeviceListItem, GuiMessage, MicrophoneMessage};
use songrec::recognition::SongRecognizedMessage;
use songrec::window::{split_song_name, youtube_search_url, NetworkIndicator, WindowEffect, WindowState};

fn history() -> RecognitionHistoryInterface {
    RecognitionHistoryInterface::new(Ok("h.csv".to_string()), Some(vec![])).unwrap()
}

fn device(name: &str) -> DeviceListItem {
    DeviceListItem { inner_name: name.to_string(), display_name: name.to_uppercase(), is_monitor: false }
}

fn song(key: &str, cover: Option<Vec<u8>>) -> SongRecognizedMessage {
    SongRecognizedMessage {
        artist_name: "Daft Punk".to_string(),
        album_name: Some("Discovery".to_string()),
        song_name: "One More Time".to_string(),
        cover_image: cover,
        track_key: key.to_string(),
        release_year: Some("2001".to_string()),
        genre: Some("Electronic".to_string()),
        shazam_json: "{}".to_string(),
    }
}

#[test]
fn a_new_window_is_idle() {
    let w = WindowState::new(true);
    assert_eq!(w.status_message, "Idle");
    assert!(w.microphone_active && w.network_ok && !w.rate_limited);
    assert!(w.network_indicator() == NetworkIndicator::Online);
}

#[test]
fn a_device_list_starts_an_active_microphone() {
    let mut w = WindowState::new(true);
    let mut h = history();
    let fx = w.process_message(GuiMessage::DevicesList(vec![device("a"), device("b")]), &mut h, String::new());
    assert_eq!(fx.len(), 1);
    assert!(matches!(&fx[0], WindowEffect::Microphone(MicrophoneMessage::MicrophoneRecordStart(n)) if n == "a"));
    let mut idle = WindowState::new(false);
    assert!(idle.process_message(GuiMessage::DevicesList(vec![device("a")]), &mut h, String::new()).is_empty());
    assert!(w.process_message(GuiMessage::DevicesList(vec![]), &mut h, String::new()).is_empty());
}

#[test]
fn status_messages() {
    let mut w = WindowState::new(false);
    let mut h = history();
    w.process_message(GuiMessage::MicrophoneRecording, &mut h, String::new());
    assert_eq!(w.status_message, "Recording…");
    w.process_message(GuiMessage::NetworkStatus(false), &mut h, String::new());
    assert_eq!(w.status_message, "Network unreachable");
    assert!(w.network_indicator() == NetworkIndicator::Offline);
    w.process_message(GuiMessage::NetworkStatus(true), &mut h, String::new());
    assert_eq!(w.status_message, "Network unreachable");
    w.process_message(GuiMessage::RateLimitState(true), &mut h, String::new());
    assert_eq!(w.status_message, "Rate limited — waiting…");
    assert!(w.network_indicator() == NetworkIndicator::RateLimited);
    w.process_message(GuiMessage::ErrorMessage("No match for this song".to_string()), &mut h, String::new());
    assert_eq!(w.status_message, "No match for this song");
    w.process_message(GuiMessage::ShowWindow, &mut h, String::new());
    assert_eq!(w.status_message, "No match for this song");
}

#[test]
fn a_recognised_song_is_shown_and_recorded_once() {
    let mut w = WindowState::new(false);
    let mut h = history();
    let fx = w.process_message(GuiMessage::SongRecognized(song("k1", Some(vec![9]))), &mut h, "Sat Aug 17 22:44:43 2024".to_string());
    assert_eq!(w.current_artist, "Daft Punk");
    assert_eq!(w.current_song, "One More Time");
    assert_eq!(w.current_album, "Discovery");
    assert_eq!(w.status_message, "Daft Punk — One More Time");
    assert_eq!(fx.len(), 2);
    assert!(matches!(&fx[0], WindowEffect::ShowCover(b) if b == &vec![9u8]));
    assert!(matches!(&fx[1], WindowEffect::WriteHistory(rows) if rows.len() == 1));
    assert_eq!(h.records.len(), 1);
    assert_eq!(h.records[0].song_name, "Daft Punk — One More Time");
    assert_eq!(h.records[0].track_key.as_deref(), Some("k1"));
    assert_eq!(h.records[0].album.as_deref(), Some("Discovery"));
    assert_eq!(h.records[0].recognition_date, "Sat Aug 17 22:44:43 2024");

    let fx = w.process_message(GuiMessage::SongRecognized(song("k1", None)), &mut h, "later".to_string());
    assert!(fx.is_empty());
    assert_eq!(h.records.len(), 1);

    let fx = w.process_message(GuiMessage::SongRecognized(song("k2", None)), &mut h, "later".to_string());
    assert_eq!(fx.len(), 1);
    assert_eq!(h.records.len(), 2);
    let fx = w.process_message(GuiMessage::SongRecognized(song("k1", None)), &mut h, "later".to_string());
    assert_eq!(fx.len(), 1);
    assert_eq!(h.records.len(), 3);
}

#[test]
fn the_log_is_cut_back_past_its_limit() {
    let mut w = WindowState::new(false);
    let mut h = history();
    let line = "x".repeat(60_000);
    assert!(w.can_append_log(&line));
    w.process_message(GuiMessage::AppendToLog(line.clone()), &mut h, String::new());
    assert_eq!(w.log_text.len(), 60_000);
    let tail = format!("{}END", "y".repeat(39_997));
    w.process_message(GuiMessage::AppendToLog(tail), &mut h, String::new());
    assert_eq!(w.log_text.len(), 100_000);
    w.process_message(GuiMessage::AppendToLog("z".to_string()), &mut h, String::new());
    assert_eq!(w.log_text.len(), 80_000);
    assert!(w.log_text.ends_with("ENDz"));
}

#[test]
fn a_cut_inside_a_character_is_refused() {
    let mut w = WindowState::new(false);
    let mut h = history();
    w.process_message(GuiMessage::AppendToLog("é".repeat(50_000)), &mut h, String::new());
    assert!(!w.can_append_log("a"));
    assert!(w.can_append_log("ab"));
}

#[test]
fn the_microphone_button_toggles() {
    let mut w = WindowState::new(false);
    assert!(w.toggle_microphone().is_none());
    assert!(w.microphone_active);
    assert!(matches!(w.toggle_microphone(), Some(MicrophoneMessage::MicrophoneRecordStop)));
    w.audio_devices = vec![device("a"), device("b")];
    w.selected_device_idx = 1;
    assert!(matches!(w.toggle_microphone(), Some(MicrophoneMessage::MicrophoneRecordStart(n)) if n == "b"));
}

#[test]
fn history_entries_split_into_artist_and_title() {
    assert_eq!(split_song_name("Daft Punk — One More Time"), ("Daft Punk".to_string(), "One More Time".to_string()));
    assert_eq!(split_song_name("A — B — C"), ("A".to_string(), "B — C".to_string()));
    assert_eq!(split_song_name("Untitled"), (String::new(), "Untitled".to_string()));
}

#[test]
fn the_video_search_address_is_percent_encoded() {
    assert_eq!(
        youtube_search_url("Daft Punk", "One More Time?"),
        "https://www.youtube.com/results?search_query=Daft%20Punk+One%20More%20Time%3F"
    );
    assert_eq!(youtube_search_url("Beyoncé", "a-b"), "https://www.youtube.com/results?search_query=Beyonc%C3%A9+a%2Db");
}

#[test]
fn listed_apps() {
    let a = ListedApp::new("Firefox".to_string(), 3);
    assert_eq!(a.display_name(), "Firefox");
    assert_eq!(a.app_index(), 3);
    assert!(!a.is_all_applications());
    assert!(ListedApp::new("All applications".to_string(), ALL_APPLICATIONS).is_all_applications());
    assert_eq!(ALL_APPLICATIONS, u32::MAX);
}
