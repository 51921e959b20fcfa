//! The main window's state and what each message does to it.

use vstd::prelude::*;
use vstd::string::StringSliceAdditionalSpecFns;
use vstd::utf8::{encode_utf8, is_char_boundary};
use crate::history::{RecognitionHistoryInterface, SongHistoryRecord};
use crate::messages::{DeviceListItem, GuiMessage, MicrophoneMessage};
use crate::recognition::SongRecognizedMessage;
use crate::text::{chars_of, find_chars, occurs_at, has_substring, string_of};

verus! {

broadcast use vstd::string::group_string_axioms;

/// Past this many bytes the log is cut back.
pub const LOG_LIMIT: usize = 100_000;

/// How many of the latest bytes the log keeps when it is cut back.
pub const LOG_KEPT: usize = 80_000;

/// The separator between artist and title in the window and the history.
pub open spec fn title_separator() -> Seq<char> {
    seq![' ', '\u{2014}', ' ']
}

/// What the window shows and remembers (the microphone's volume and the
/// cover picture are kept beside it by the program around the library).
pub struct WindowState {
    pub audio_devices: Vec<DeviceListItem>,
    pub selected_device_idx: usize,
    pub microphone_active: bool,
    pub status_message: String,
    pub network_ok: bool,
    pub rate_limited: bool,
    pub current_artist: String,
    pub current_song: String,
    pub current_album: String,
    pub log_text: String,
}

/// What the program around the library has to do after a message.
pub enum WindowEffect {
    /// Tell the recording side.
    Microphone(MicrophoneMessage),
    /// Decode and show this cover picture.
    ShowCover(Vec<u8>),
    /// Write these rows to the history file.
    WriteHistory(Vec<SongHistoryRecord>),
}

/// Which network state the tool bar shows.
#[derive(PartialEq, Eq, Structural)]
pub enum NetworkIndicator {
    RateLimited,
    Offline,
    Online,
}

/// The log after `text` is appended to it: where it grows past the limit,
/// only its last bytes are kept.
pub open spec fn log_after(log: Seq<char>, text: Seq<char>) -> Seq<u8> {
    let all = encode_utf8(log + text);
    if all.len() > LOG_LIMIT {
        all.subrange(all.len() - LOG_KEPT, all.len() as int)
    } else {
        all
    }
}

/// Cutting the log after `text` is appended falls between two characters.
pub open spec fn log_cut_allowed(log: Seq<char>, text: Seq<char>) -> bool {
    let all = encode_utf8(log + text);
    all.len() > LOG_LIMIT ==> is_char_boundary(all, all.len() - LOG_KEPT)
}

/// A message may be taken in: a log line only where cutting the log falls
/// between two characters.
pub open spec fn message_allowed(w: WindowState, msg: GuiMessage) -> bool {
    msg matches GuiMessage::AppendToLog(t) ==> log_cut_allowed(w.log_text@, t@)
}

/// The text shown for a song: artist, separator, title.
pub open spec fn song_title_line(artist: Seq<char>, song: Seq<char>) -> Seq<char> {
    artist + title_separator() + song
}

/// The history record for a recognised song, recognised at `date`.
pub open spec fn history_record_for(m: SongRecognizedMessage, title_line: String, date: String) -> SongHistoryRecord {
    SongHistoryRecord {
        song_name: title_line,
        album: m.album_name,
        track_key: Some(m.track_key),
        release_year: m.release_year,
        genre: m.genre,
        recognition_date: date,
    }
}

/// `str::len`: the length of `s` in bytes, which for a string held in
/// memory is a `usize`.
#[verifier::external_body]
fn byte_len(s: &str) -> (n: usize)
    ensures
        n == s.spec_bytes().len(),
{
    s.len()
}

fn separator_string() -> (r: String)
    ensures
        r@ == title_separator(),
{
    let mut v: Vec<char> = Vec::new();
    v.push(' ');
    v.push('\u{2014}');
    v.push(' ');
    assert(v@ =~= title_separator());
    string_of(&v)
}

fn title_line(artist: &String, song: &String) -> (r: String)
    ensures
        r@ == song_title_line(artist@, song@),
{
    let mut r = artist.clone();
    let sep = separator_string();
    r.append(sep.as_str());
    r.append(song.as_str());
    r
}

impl WindowState {
    /// The window as it opens; `recording` says whether the microphone
    /// starts out active.
    pub fn new(recording: bool) -> (w: WindowState)
        ensures
            w.audio_devices@.len() == 0,
            w.selected_device_idx == 0,
            w.microphone_active == recording,
            w.status_message@ == "Idle"@,
            w.network_ok,
            !w.rate_limited,
            w.current_artist@.len() == 0,
            w.current_song@.len() == 0,
            w.current_album@.len() == 0,
            w.log_text@.len() == 0,
    {
        WindowState {
            audio_devices: Vec::new(),
            selected_device_idx: 0,
            microphone_active: recording,
            status_message: String::from_str("Idle"),
            network_ok: true,
            rate_limited: false,
            current_artist: String::new(),
            current_song: String::new(),
            current_album: String::new(),
            log_text: String::new(),
        }
    }

    /// Recording starts on the selected device, where there is one.
    pub fn start_microphone(&self) -> (r: Option<MicrophoneMessage>)
        ensures
            r == self.start_microphone_spec(),
            self.selected_device_idx < self.audio_devices@.len() ==> r == Some(
                MicrophoneMessage::MicrophoneRecordStart(self.audio_devices@[self.selected_device_idx as int].inner_name),
            ),
            self.selected_device_idx >= self.audio_devices@.len() ==> r is None,
    {
        if self.selected_device_idx < self.audio_devices.len() {
            Some(MicrophoneMessage::MicrophoneRecordStart(self.audio_devices[self.selected_device_idx].inner_name.clone()))
        } else {
            None
        }
    }

    /// The start/stop button: stops an active microphone, starts an idle one.
    pub fn toggle_microphone(&mut self) -> (r: Option<MicrophoneMessage>)
        ensures
            final(self).microphone_active == !old(self).microphone_active,
            final(self).audio_devices == old(self).audio_devices,
            final(self).selected_device_idx == old(self).selected_device_idx,
            keeps_status(*old(self), *final(self)),
            final(self).current_artist == old(self).current_artist,
            final(self).current_song == old(self).current_song,
            final(self).current_album == old(self).current_album,
            final(self).log_text == old(self).log_text,
            old(self).microphone_active ==> r == Some(MicrophoneMessage::MicrophoneRecordStop),
            !old(self).microphone_active ==> r == old(self).start_microphone_spec(),
            !old(self).microphone_active && old(self).selected_device_idx < old(self).audio_devices@.len() ==> r
                == Some(MicrophoneMessage::MicrophoneRecordStart(
                old(self).audio_devices@[old(self).selected_device_idx as int].inner_name,
            )),
    {
        if self.microphone_active {
            self.microphone_active = false;
            Some(MicrophoneMessage::MicrophoneRecordStop)
        } else {
            self.microphone_active = true;
            self.start_microphone()
        }
    }

    /// What `start_microphone` gives.
    pub open spec fn start_microphone_spec(&self) -> Option<MicrophoneMessage> {
        if self.selected_device_idx < self.audio_devices@.len() {
            Some(MicrophoneMessage::MicrophoneRecordStart(self.audio_devices@[self.selected_device_idx as int].inner_name))
        } else {
            None
        }
    }

    /// The network state shown: a rate limit first, then an unreachable
    /// network.
    pub fn network_indicator(&self) -> (r: NetworkIndicator)
        ensures
            r == (if self.rate_limited { NetworkIndicator::RateLimited } else if !self.network_ok {
                NetworkIndicator::Offline
            } else {
                NetworkIndicator::Online
            }),
    {
        if self.rate_limited {
            NetworkIndicator::RateLimited
        } else if !self.network_ok {
            NetworkIndicator::Offline
        } else {
            NetworkIndicator::Online
        }
    }

    /// Cutting the log after `text` would fall between two characters.
    pub fn can_append_log(&self, text: &str) -> (r: bool)
        ensures
            r == log_cut_allowed(self.log_text@, text@),
    {
        let mut all = self.log_text.clone();
        all.append(text);
        let all_str = all.as_str();
        let len = byte_len(all_str);
        assert(all_str.spec_bytes() == encode_utf8(self.log_text@ + text@));
        if len > LOG_LIMIT {
            all_str.is_char_boundary(len - LOG_KEPT)
        } else {
            true
        }
    }

    fn append_log(&mut self, text: &str)
        requires
            log_cut_allowed(old(self).log_text@, text@),
        ensures
            encode_utf8(final(self).log_text@) == log_after(old(self).log_text@, text@),
            final(self).audio_devices == old(self).audio_devices,
            final(self).selected_device_idx == old(self).selected_device_idx,
            final(self).microphone_active == old(self).microphone_active,
            final(self).status_message == old(self).status_message,
            final(self).network_ok == old(self).network_ok,
            final(self).rate_limited == old(self).rate_limited,
            final(self).current_artist == old(self).current_artist,
            final(self).current_song == old(self).current_song,
            final(self).current_album == old(self).current_album,
    {
        self.log_text.append(text);
        let log_str = self.log_text.as_str();
        let len = byte_len(log_str);
        assert(log_str.spec_bytes() == encode_utf8(old(self).log_text@ + text@));
        if len > LOG_LIMIT {
            let (_, tail) = log_str.split_at(len - LOG_KEPT);
            assert(tail.spec_bytes() == encode_utf8(tail@));
            let kept = tail.to_owned();
            self.log_text = kept;
        }
    }
}


/// The newest history record has this track key.
pub open spec fn latest_key_is(records: Seq<SongHistoryRecord>, key: Seq<char>) -> bool {
    records.len() > 0 && (records[0].track_key matches Some(k) && k@ == key)
}

/// The window keeps everything but its status line and the fields named.
pub open spec fn keeps_devices_and_song(a: WindowState, b: WindowState) -> bool {
    &&& a.audio_devices == b.audio_devices
    &&& a.selected_device_idx == b.selected_device_idx
    &&& a.microphone_active == b.microphone_active
    &&& a.current_artist == b.current_artist
    &&& a.current_song == b.current_song
    &&& a.current_album == b.current_album
    &&& a.log_text == b.log_text
}

pub open spec fn opt_text(o: Option<String>) -> Seq<char> {
    match o {
        Some(s) => s@,
        None => Seq::empty(),
    }
}

impl WindowState {
    /// Takes in one message: what the window then shows, what the history
    /// then holds, and what is left to do. `date` is the time of day at
    /// which the message arrives, written in the `%c` form.
    pub fn process_message(
        &mut self,
        msg: GuiMessage,
        history: &mut RecognitionHistoryInterface,
        date: String,
    ) -> (effects: Vec<WindowEffect>)
        requires
            message_allowed(*old(self), msg),
        ensures
            final(history).csv_path == old(history).csv_path,
            match msg {
                GuiMessage::DevicesList(devices) => {
                    &&& final(self).audio_devices == devices
                    &&& final(self).selected_device_idx == old(self).selected_device_idx
                    &&& final(self).microphone_active == old(self).microphone_active
                    &&& final(self).status_message == old(self).status_message
                    &&& final(self).network_ok == old(self).network_ok
                    &&& final(self).rate_limited == old(self).rate_limited
                    &&& final(self).current_artist == old(self).current_artist
                    &&& final(self).current_song == old(self).current_song
                    &&& final(self).current_album == old(self).current_album
                    &&& final(self).log_text == old(self).log_text
                    &&& final(history).records == old(history).records
                    &&& effects@.len() == (if old(self).microphone_active && devices@.len() > 0
                        && final(self).start_microphone_spec() is Some { 1int } else { 0int })
                    &&& effects@.len() == 1 ==> effects@[0] == WindowEffect::Microphone(
                        final(self).start_microphone_spec()->0,
                    )
                },
                GuiMessage::SongRecognized(m) => {
                    &&& final(self).audio_devices == old(self).audio_devices
                    &&& final(self).selected_device_idx == old(self).selected_device_idx
                    &&& final(self).microphone_active == old(self).microphone_active
                    &&& final(self).network_ok == old(self).network_ok
                    &&& final(self).rate_limited == old(self).rate_limited
                    &&& final(self).log_text == old(self).log_text
                    &&& final(self).current_artist@ == m.artist_name@
                    &&& final(self).current_song@ == m.song_name@
                    &&& final(self).current_album@ == opt_text(m.album_name)
                    &&& final(self).status_message@ == song_title_line(m.artist_name@, m.song_name@)
                    &&& if latest_key_is(old(history).records@, m.track_key@) {
                        &&& final(history).records == old(history).records
                        &&& effects@ == cover_effects(m.cover_image)
                    } else {
                        exists|title: String| #![auto]
                            title@ == song_title_line(m.artist_name@, m.song_name@)
                            && final(history).records@ == seq![history_record_for(m, title, date)] + old(history).records@
                            && final(history).records@.len() == old(history).records@.len() + 1
                            && final(history).records@.drop_first() == old(history).records@
                            && final(history).records@[0].song_name@ == song_title_line(m.artist_name@, m.song_name@)
                            && final(history).records@[0].album == m.album_name
                            && final(history).records@[0].track_key == Some(m.track_key)
                            && final(history).records@[0].release_year == m.release_year
                            && final(history).records@[0].genre == m.genre
                            && final(history).records@[0].recognition_date == date
                            && effects@.len() > 0
                            && effects@.drop_last() == cover_effects(m.cover_image)
                            && (effects@.last() matches WindowEffect::WriteHistory(rows)
                                && rows@ == final(history).records@.reverse())
                    }
                },
                GuiMessage::AppendToLog(t) => {
                    &&& keeps_status(*old(self), *final(self))
                    &&& final(self).audio_devices == old(self).audio_devices
                    &&& final(self).selected_device_idx == old(self).selected_device_idx
                    &&& final(self).microphone_active == old(self).microphone_active
                    &&& final(self).current_artist == old(self).current_artist
                    &&& final(self).current_song == old(self).current_song
                    &&& final(self).current_album == old(self).current_album
                    &&& encode_utf8(final(self).log_text@) == log_after(old(self).log_text@, t@)
                    &&& final(history).records == old(history).records
                    &&& effects@.len() == 0
                },
                _ => {
                    &&& keeps_devices_and_song(*old(self), *final(self))
                    &&& final(history).records == old(history).records
                    &&& effects@.len() == 0
                    &&& match msg {
                        GuiMessage::MicrophoneRecording => final(self).status_message@ == "Recording\u{2026}"@
                            && final(self).network_ok == old(self).network_ok
                            && final(self).rate_limited == old(self).rate_limited,
                        GuiMessage::NetworkStatus(ok) => final(self).network_ok == ok
                            && final(self).rate_limited == old(self).rate_limited
                            && (if ok { final(self).status_message == old(self).status_message } else {
                                final(self).status_message@ == "Network unreachable"@
                            }),
                        GuiMessage::RateLimitState(limited) => final(self).rate_limited == limited
                            && final(self).network_ok == old(self).network_ok
                            && (if limited {
                                final(self).status_message@ == "Rate limited \u{2014} waiting\u{2026}"@
                            } else {
                                final(self).status_message == old(self).status_message
                            }),
                        GuiMessage::ErrorMessage(e) => final(self).status_message == e
                            && final(self).network_ok == old(self).network_ok
                            && final(self).rate_limited == old(self).rate_limited,
                        _ => keeps_status(*old(self), *final(self)),
                    }
                },
            },
    {
        let mut effects: Vec<WindowEffect> = Vec::new();
        match msg {
            GuiMessage::DevicesList(devices) => {
                self.audio_devices = devices;
                if self.microphone_active && self.audio_devices.len() > 0 {
                    match self.start_microphone() {
                        Some(m) => effects.push(WindowEffect::Microphone(m)),
                        None => {},
                    }
                }
            },
            GuiMessage::MicrophoneRecording => {
                self.status_message = String::from_str("Recording\u{2026}");
            },
            GuiMessage::NetworkStatus(ok) => {
                self.network_ok = ok;
                if !ok {
                    self.status_message = String::from_str("Network unreachable");
                }
            },
            GuiMessage::RateLimitState(limited) => {
                self.rate_limited = limited;
                if limited {
                    self.status_message = String::from_str("Rate limited \u{2014} waiting\u{2026}");
                }
            },
            GuiMessage::ErrorMessage(e) => {
                self.status_message = e;
            },
            GuiMessage::SongRecognized(m) => {
                self.current_artist = m.artist_name.clone();
                self.current_song = m.song_name.clone();
                self.current_album = match &m.album_name {
                    Some(a) => a.clone(),
                    None => String::new(),
                };
                let line = title_line(&m.artist_name, &m.song_name);
                self.status_message = line.clone();
                let ghost mg = m;
                let ghost dg = date;
                let ghost tg = line;
                let already = history.latest_track_key_is(&m.track_key);
                let SongRecognizedMessage { artist_name, album_name, song_name, cover_image, track_key, release_year, genre, shazam_json } = m;
                match cover_image {
                    Some(bytes) => effects.push(WindowEffect::ShowCover(bytes)),
                    None => {},
                }
                if !already {
                    let record = SongHistoryRecord {
                        song_name: line,
                        album: album_name,
                        track_key: Some(track_key),
                        release_year,
                        genre,
                        recognition_date: date,
                    };
                    assert(record == history_record_for(mg, tg, dg));
                    let rows = history.add_row_and_save(record);
                    effects.push(WindowEffect::WriteHistory(rows));
                    assert(effects@.drop_last() =~= cover_effects(mg.cover_image));
                }
            },
            GuiMessage::AppendToLog(text) => {
                self.append_log(text.as_str());
            },
            GuiMessage::ShowWindow => {},
            GuiMessage::QuitApplication => {},
        }
        effects
    }
}

/// Showing the cover picture, where the song came with one.
pub open spec fn cover_effects(cover: Option<Vec<u8>>) -> Seq<WindowEffect> {
    match cover {
        Some(b) => seq![WindowEffect::ShowCover(b)],
        None => Seq::empty(),
    }
}

/// The status line and the network flags are kept.
pub open spec fn keeps_status(a: WindowState, b: WindowState) -> bool {
    a.status_message == b.status_message && a.network_ok == b.network_ok && a.rate_limited == b.rate_limited
}


/// The artist and the title of a history entry: the text before and after
/// the first separator; with no separator, no artist and the whole text.
pub open spec fn split_title_spec(name: Seq<char>) -> (Seq<char>, Seq<char>) {
    if has_substring(name, title_separator()) {
        let i = choose|i: int| occurs_at(name, title_separator(), i) && forall|k: int|
            0 <= k < i ==> !occurs_at(name, title_separator(), k);
        (name.take(i), name.skip(i + 3))
    } else {
        (Seq::empty(), name)
    }
}

/// Splits a history entry's text into artist and title.
pub fn split_song_name(name: &str) -> (r: (String, String))
    ensures
        (r.0@, r.1@) == split_title_spec(name@),
{
    let chars = chars_of(name);
    let sep = chars_of(separator_string().as_str());
    assert(sep@.len() == 3);
    match find_chars(&chars, &sep) {
        Some(i) => {
            let total = chars.len();
            let mut artist: Vec<char> = Vec::new();
            let mut k: usize = 0;
            while k < i
                invariant
                    total == chars@.len(),
                    sep@.len() == 3,
                    i + sep@.len() <= chars@.len(),
                    k <= i,
                    artist@ == chars@.take(k as int),
                decreases i - k,
            {
                artist.push(chars[k]);
                assert(artist@ =~= chars@.take(k + 1));
                k = k + 1;
            }
            let mut title: Vec<char> = Vec::new();
            let mut j: usize = i + 3;
            while j < chars.len()
                invariant
                    i + 3 <= j <= chars@.len(),
                    title@ == chars@.subrange(i + 3, j as int),
                decreases chars.len() - j,
            {
                title.push(chars[j]);
                assert(title@ =~= chars@.subrange(i + 3, j + 1));
                j = j + 1;
            }
            proof {
                let c = choose|c: int| occurs_at(name@, title_separator(), c) && forall|k: int|
                    0 <= k < c ==> !occurs_at(name@, title_separator(), k);
                assert(occurs_at(name@, title_separator(), i as int));
                assert(c == i);
                assert(chars@.subrange(i + 3, chars@.len() as int) =~= name@.skip(i + 3));
            }
            (string_of(&artist), string_of(&title))
        },
        None => (String::new(), string_of(&chars)),
    }
}

/// Writing a song's text and splitting it gives back the artist and the
/// title, where the artist holds no em dash.
pub proof fn split_undoes_title_line(artist: Seq<char>, song: Seq<char>)
    requires
        forall|i: int| 0 <= i < artist.len() ==> artist[i] != '\u{2014}',
    ensures
        split_title_spec(song_title_line(artist, song)) == (artist, song),
{
    let line = song_title_line(artist, song);
    let sep = title_separator();
    let n = artist.len() as int;
    assert(line.subrange(n, n + 3) =~= sep);
    assert(occurs_at(line, sep, n));
    assert forall|k: int| 0 <= k < n implies !occurs_at(line, sep, k) by {
        if occurs_at(line, sep, k) {
            assert(line.subrange(k, k + 3)[1] == sep[1]);
            assert(line[k + 1] == '\u{2014}');
            if k + 1 < n {
                assert(line[k + 1] == artist[k + 1]);
            } else {
                assert(line[k + 1] == ' ');
            }
        }
    }
    let i = choose|i: int| occurs_at(line, sep, i) && forall|k: int| 0 <= k < i ==> !occurs_at(line, sep, k);
    assert(i == n);
    assert(line.take(n) =~= artist);
    assert(line.skip(n + 3) =~= song);
}

/// An ASCII letter or digit.
pub open spec fn is_ascii_alphanumeric(b: u8) -> bool {
    (48 <= b <= 57) || (65 <= b <= 90) || (97 <= b <= 122)
}

/// An upper-case hexadecimal digit.
pub open spec fn hex_digit(v: u8) -> char {
    if v < 10 { (48 + v) as char } else { (55 + v) as char }
}

/// Percent-encoding of bytes: ASCII letters and digits stay, every other
/// byte becomes `%` and two upper-case hexadecimal digits.
pub open spec fn percent_encoded(bytes: Seq<u8>) -> Seq<char>
    decreases bytes.len(),
{
    if bytes.len() == 0 {
        Seq::empty()
    } else {
        let b = bytes[0];
        (if is_ascii_alphanumeric(b) {
            seq![b as char]
        } else {
            seq!['%', hex_digit(b / 16), hex_digit(b % 16)]
        }) + percent_encoded(bytes.drop_first())
    }
}

/// `percent_encoding::utf8_percent_encode(s, NON_ALPHANUMERIC)`, written out:
/// the UTF-8 bytes of `s`, each byte that is not an ASCII letter or digit
/// written as `%XX` (upper-case hexadecimal).
#[verifier::external_body]
fn percent_encode_text(s: &str) -> (r: String)
    ensures
        r@ == percent_encoded(encode_utf8(s@)),
{
    percent_encoding::utf8_percent_encode(s, percent_encoding::NON_ALPHANUMERIC).to_string()
}

/// The address of a video search for a song.
pub open spec fn youtube_search_url_spec(artist: Seq<char>, song: Seq<char>) -> Seq<char> {
    "https://www.youtube.com/results?search_query="@ + percent_encoded(encode_utf8(artist)) + "+"@
        + percent_encoded(encode_utf8(song))
}

/// The address of a video search for a song.
pub fn youtube_search_url(artist: &str, song: &str) -> (r: String)
    ensures
        r@ == youtube_search_url_spec(artist@, song@),
{
    let mut r = String::from_str("https://www.youtube.com/results?search_query=");
    let a = percent_encode_text(artist);
    let s = percent_encode_text(song);
    r.append(a.as_str());
    r.append("+");
    r.append(s.as_str());
    r
}

/// Starting the microphone records from the selected device, whatever kind
/// of device it is, whenever the selection lies within the device list; with
/// no device at the selection, nothing starts.
pub proof fn start_microphone_uses_selected_device(w: WindowState)
    ensures
        w.selected_device_idx < w.audio_devices@.len() ==> w.start_microphone_spec() == Some(
            MicrophoneMessage::MicrophoneRecordStart(w.audio_devices@[w.selected_device_idx as int].inner_name),
        ),
        w.selected_device_idx >= w.audio_devices@.len() ==> w.start_microphone_spec() is None,
{
}

/// The history record of a recognition carries the message's album,
/// track key, release year and genre, the title line and the date given.
pub proof fn history_record_keeps_song_fields(m: SongRecognizedMessage, title: String, date: String)
    ensures
        history_record_for(m, title, date).song_name == title,
        history_record_for(m, title, date).album == m.album_name,
        history_record_for(m, title, date).track_key == Some(m.track_key),
        history_record_for(m, title, date).release_year == m.release_year,
        history_record_for(m, title, date).genre == m.genre,
        history_record_for(m, title, date).recognition_date == date,
{
}

/// The log never holds more than its limit of bytes after a line is added.
pub proof fn log_stays_within_limit(log: Seq<char>, text: Seq<char>)
    ensures
        log_after(log, text).len() <= LOG_LIMIT,
        log_after(log, text).len() > LOG_KEPT ==> log_after(log, text) == encode_utf8(log + text),
{
}

/// The same song recognised twice in a row is recorded once: after the
/// first recognition the newest record has the song's track key, so the
/// second one leaves the history as it is.
pub proof fn repeated_recognition_recorded_once(
    records: Seq<SongHistoryRecord>,
    first: SongRecognizedMessage,
    second: SongRecognizedMessage,
    title: String,
    date: String,
)
    requires
        first.track_key@ == second.track_key@,
    ensures
        latest_key_is(seq![history_record_for(first, title, date)] + records, second.track_key@),
        latest_key_is(records, first.track_key@) ==> latest_key_is(records, second.track_key@),
{
}

} // verus!
