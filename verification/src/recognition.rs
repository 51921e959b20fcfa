//! Reading the recognition service's answer into a recognised song, and
//! what the main window is told after each recognition attempt.

use vstd::prelude::*;
use crate::json::{JsonValue, get_in, text_of, string_eq_str};
use crate::messages::GuiMessage;
use crate::text::{to_uppercase, uppercase};

verus! {

broadcast use vstd::string::group_string_axioms;

/// A song that the service recognised.
pub struct SongRecognizedMessage {
    pub artist_name: String,
    pub album_name: Option<String>,
    pub song_name: String,
    pub cover_image: Option<Vec<u8>>,
    pub track_key: String,
    pub release_year: Option<String>,
    pub genre: Option<String>,
    pub shazam_json: String,
}

/// Why a recognition attempt gave no song.
pub enum RecognitionError {
    /// The service answered, but with no song.
    NoMatch,
    /// The service refused the request: too many requests from this address.
    RateLimited,
    /// The service or the cover could not be reached; the text says why.
    Network(String),
}

impl RecognitionError {
    /// The English text of the error.
    pub fn message(&self) -> (r: String)
        ensures
            r@ == match self {
                RecognitionError::NoMatch => "No match for this song"@,
                RecognitionError::RateLimited => "Your IP has been rate-limited"@,
                RecognitionError::Network(s) => s@,
            },
    {
        match self {
            RecognitionError::NoMatch => String::from_str("No match for this song"),
            RecognitionError::RateLimited => String::from_str("Your IP has been rate-limited"),
            RecognitionError::Network(s) => s.clone(),
        }
    }
}

/// The HTTP status with which the service says that this address sends too
/// many requests.
pub const RATE_LIMITED_STATUS: u16 = 429;

/// What the status of the service's answer means: only "too many requests"
/// stops the recognition there.
pub fn check_response_status(status: u16) -> (r: Result<(), RecognitionError>)
    ensures
        status == 429 <==> r is Err,
        r matches Err(e) ==> e is RateLimited,
{
    if status == RATE_LIMITED_STATUS {
        Err(RecognitionError::RateLimited)
    } else {
        Ok(())
    }
}

/// `value` holds a string equal to `s`.
pub open spec fn is_text(value: JsonValue, s: Seq<char>) -> bool {
    value.text() == Some(s)
}

/// The track part of the answer.
pub open spec fn track(json: JsonValue) -> JsonValue {
    json.member("track"@)
}

/// The metadata of a section that describes the song itself: its type is
/// `SONG` and its metadata is a list.
pub open spec fn song_section_metadata(section: JsonValue) -> Option<Seq<JsonValue>> {
    if is_text(section.member("type"@), "SONG"@) {
        match section.member("metadata"@) {
            JsonValue::Array(items) => Some(items@),
            _ => None,
        }
    } else {
        None
    }
}

/// The metadata of the first section that describes the song.
pub open spec fn first_song_metadata(sections: Seq<JsonValue>) -> Option<Seq<JsonValue>>
    decreases sections.len(),
{
    if sections.len() == 0 {
        None
    } else if song_section_metadata(sections[0]) is Some {
        song_section_metadata(sections[0])
    } else {
        first_song_metadata(sections.drop_first())
    }
}

/// The text of the last metadatum titled `title` whose text is a string.
pub open spec fn last_text_titled(metadata: Seq<JsonValue>, title: Seq<char>) -> Option<Seq<char>>
    decreases metadata.len(),
{
    if metadata.len() == 0 {
        None
    } else if is_text(metadata.last().member("title"@), title)
        && metadata.last().member("text"@).text() is Some {
        metadata.last().member("text"@).text()
    } else {
        last_text_titled(metadata.drop_last(), title)
    }
}

/// The metadata of the song section of the answer, if there is one.
pub open spec fn answer_song_metadata(json: JsonValue) -> Option<Seq<JsonValue>> {
    match track(json).member("sections"@) {
        JsonValue::Array(sections) => first_song_metadata(sections@),
        _ => None,
    }
}

/// The album named in the answer.
pub open spec fn answer_album(json: JsonValue) -> Option<Seq<char>> {
    match answer_song_metadata(json) {
        Some(m) => last_text_titled(m, "Album"@),
        None => None,
    }
}

/// The release year named in the answer.
pub open spec fn answer_release_year(json: JsonValue) -> Option<Seq<char>> {
    match answer_song_metadata(json) {
        Some(m) => last_text_titled(m, "Released"@),
        None => None,
    }
}

/// The address of the cover art named in the answer.
pub open spec fn answer_cover_url(json: JsonValue) -> Option<Seq<char>> {
    track(json).member("images"@).member("coverart"@).text()
}

/// The answer names the artist and the title of a song.
pub open spec fn answer_names_song(json: JsonValue) -> bool {
    track(json).member("subtitle"@).text() is Some && track(json).member("title"@).text() is Some
}

pub open spec fn opt_string_view(o: Option<String>) -> Option<Seq<char>> {
    match o {
        Some(s) => Some(s@),
        None => None,
    }
}

proof fn lemma_first_song_metadata_skip(sections: Seq<JsonValue>, k: int)
    requires
        0 <= k <= sections.len(),
        forall|j: int| 0 <= j < k ==> song_section_metadata(#[trigger] sections[j]) is None,
    ensures
        first_song_metadata(sections) == first_song_metadata(sections.skip(k)),
    decreases k,
{
    if k == 0 {
        assert(sections.skip(0) =~= sections);
    } else {
        let rest = sections.drop_first();
        assert forall|j: int| 0 <= j < k - 1 implies song_section_metadata(#[trigger] rest[j]) is None by {
            assert(rest[j] == sections[j + 1]);
        }
        lemma_first_song_metadata_skip(rest, k - 1);
        assert(rest.skip(k - 1) =~= sections.skip(k));
    }
}

/// The text of a metadatum titled `title` is the text of the last item whose
/// title is `title` and whose text is a string: none where no item is such,
/// and the text of that item where it is followed by no other such item.
pub proof fn last_text_titled_is_last_match(metadata: Seq<JsonValue>, title: Seq<char>)
    ensures
        (forall|i: int| 0 <= i < metadata.len() ==> !((#[trigger] metadata[i]).member("title"@).text()
            == Some(title) && metadata[i].member("text"@).text() is Some)) ==> last_text_titled(metadata, title) is None,
        forall|i: int|
            0 <= i < metadata.len() && (#[trigger] metadata[i]).member("title"@).text() == Some(title)
                && metadata[i].member("text"@).text() is Some && (forall|j: int| i < j < metadata.len()
                ==> !((#[trigger] metadata[j]).member("title"@).text() == Some(title)
                && metadata[j].member("text"@).text() is Some)) ==> last_text_titled(metadata, title)
                == metadata[i].member("text"@).text(),
    decreases metadata.len(),
{
    if metadata.len() > 0 {
        let prev = metadata.drop_last();
        let last = metadata.len() - 1;
        last_text_titled_is_last_match(prev, title);
        assert(metadata.last() == metadata[last]);
        assert forall|i: int| 0 <= i < prev.len() implies #[trigger] prev[i] == metadata[i] by {}
        if !(metadata[last].member("title"@).text() == Some(title) && metadata[last].member("text"@).text() is Some) {
            assert forall|i: int|
                0 <= i < metadata.len() && (#[trigger] metadata[i]).member("title"@).text() == Some(title)
                    && metadata[i].member("text"@).text() is Some && (forall|j: int| i < j < metadata.len()
                    ==> !((#[trigger] metadata[j]).member("title"@).text() == Some(title)
                    && metadata[j].member("text"@).text() is Some)) implies last_text_titled(metadata, title)
                    == metadata[i].member("text"@).text() by {
                assert(prev[i] == metadata[i]);
                assert forall|j: int| i < j < prev.len() implies !((#[trigger] prev[j]).member("title"@).text()
                    == Some(title) && prev[j].member("text"@).text() is Some) by {
                    assert(prev[j] == metadata[j]);
                }
            }
        }
    }
}

/// The album and the release year come from the first section, searched
/// from the first index on, whose type is the string `SONG` and whose
/// metadata is a list: they are the texts of that list's items titled
/// "Album" and "Released".
pub proof fn album_and_year_from_first_song_section(
    json: JsonValue,
    sections: Vec<JsonValue>,
    k: int,
    metadata: Vec<JsonValue>,
)
    requires
        json.member("track"@).member("sections"@) == JsonValue::Array(sections),
        0 <= k < sections@.len(),
        sections@[k].member("type"@).text() == Some("SONG"@),
        sections@[k].member("metadata"@) == JsonValue::Array(metadata),
        forall|j: int| 0 <= j < k ==> !((#[trigger] sections@[j]).member("type"@).text() == Some("SONG"@)
            && sections@[j].member("metadata"@) is Array),
    ensures
        answer_album(json) == last_text_titled(metadata@, "Album"@),
        answer_release_year(json) == last_text_titled(metadata@, "Released"@),
{
    assert forall|j: int| 0 <= j < k implies song_section_metadata(#[trigger] sections@[j]) is None by {}
    lemma_first_song_metadata_skip(sections@, k);
    assert(sections@.skip(k)[0] == sections@[k]);
}

/// An answer with no section whose type is the string `SONG` and whose
/// metadata is a list names neither an album nor a release year.
pub proof fn no_song_section_no_album_or_year(json: JsonValue, sections: Vec<JsonValue>)
    requires
        json.member("track"@).member("sections"@) == JsonValue::Array(sections),
        forall|j: int| 0 <= j < sections@.len() ==> !((#[trigger] sections@[j]).member("type"@).text()
            == Some("SONG"@) && sections@[j].member("metadata"@) is Array),
    ensures
        answer_album(json) is None,
        answer_release_year(json) is None,
{
    assert forall|j: int| 0 <= j < sections@.len() implies song_section_metadata(#[trigger] sections@[j]) is None by {}
    lemma_first_song_metadata_skip(sections@, sections@.len() as int);
}

/// An answer whose first section has the type `SONG` and a metadata list in
/// which the item at `p` is titled "Album" with the text `a`, and the item
/// at `q` is titled "Released" with the text `y`, no later item carrying
/// either title with a string text, gives the album `a` and the year `y`.
pub proof fn song_section_first_gives_album_and_year(
    json: JsonValue,
    sections: Vec<JsonValue>,
    metadata: Vec<JsonValue>,
    p: int,
    a: String,
    q: int,
    y: String,
)
    requires
        json.member("track"@).member("sections"@) == JsonValue::Array(sections),
        sections@.len() > 0,
        sections@[0].member("type"@).text() == Some("SONG"@),
        sections@[0].member("metadata"@) == JsonValue::Array(metadata),
        0 <= p < metadata@.len(),
        metadata@[p].member("title"@).text() == Some("Album"@),
        metadata@[p].member("text"@) == JsonValue::Str(a),
        forall|j: int| p < j < metadata@.len() ==> !((#[trigger] metadata@[j]).member("title"@).text()
            == Some("Album"@) && metadata@[j].member("text"@).text() is Some),
        0 <= q < metadata@.len(),
        metadata@[q].member("title"@).text() == Some("Released"@),
        metadata@[q].member("text"@) == JsonValue::Str(y),
        forall|j: int| q < j < metadata@.len() ==> !((#[trigger] metadata@[j]).member("title"@).text()
            == Some("Released"@) && metadata@[j].member("text"@).text() is Some),
    ensures
        answer_album(json) == Some(a@),
        answer_release_year(json) == Some(y@),
{
    album_and_year_from_first_song_section(json, sections, 0, metadata);
    last_text_titled_is_last_match(metadata@, "Album"@);
    last_text_titled_is_last_match(metadata@, "Released"@);
}

/// The texts of the last metadata titled "Album" and "Released".
fn read_metadata(metadata: &Vec<JsonValue>) -> (r: (Option<String>, Option<String>))
    ensures
        opt_string_view(r.0) == last_text_titled(metadata@, "Album"@),
        opt_string_view(r.1) == last_text_titled(metadata@, "Released"@),
{
    let mut album: Option<String> = None;
    let mut released: Option<String> = None;
    let mut i: usize = 0;
    proof {
        reveal_strlit("Album");
        reveal_strlit("Released");
        assert("Album"@[0] != "Released"@[0]);
    }
    assert(metadata@.take(0) =~= Seq::<JsonValue>::empty());
    while i < metadata.len()
        invariant
            i <= metadata@.len(),
            "Album"@ != "Released"@,
            opt_string_view(album) == last_text_titled(metadata@.take(i as int), "Album"@),
            opt_string_view(released) == last_text_titled(metadata@.take(i as int), "Released"@),
        decreases metadata.len() - i,
    {
        let item = &metadata[i];
        assert(metadata@.take(i + 1).drop_last() =~= metadata@.take(i as int));
        assert(metadata@.take(i + 1).last() == metadata@[i as int]);
        match text_of(item.get("title")) {
            Some(title) => {
                if string_eq_str(title, "Album") {
                    match text_of(item.get("text")) {
                        Some(text) => {
                            album = Some(text.clone());
                        },
                        None => {},
                    }
                } else if string_eq_str(title, "Released") {
                    match text_of(item.get("text")) {
                        Some(text) => {
                            released = Some(text.clone());
                        },
                        None => {},
                    }
                }
            },
            None => {},
        }
        i = i + 1;
    }
    assert(metadata@.take(metadata@.len() as int) =~= metadata@);
    (album, released)
}

/// The album and the release year named in the answer.
pub fn read_album_and_year(json: &JsonValue) -> (r: (Option<String>, Option<String>))
    ensures
        opt_string_view(r.0) == answer_album(*json),
        opt_string_view(r.1) == answer_release_year(*json),
        match json.member("track"@).member("sections"@) {
            JsonValue::Array(sections) => forall|k: int|
                0 <= k < sections@.len() && (#[trigger] sections@[k]).member("type"@).text() == Some("SONG"@)
                    && (forall|j: int| 0 <= j < k ==> !((#[trigger] sections@[j]).member("type"@).text()
                    == Some("SONG"@) && sections@[j].member("metadata"@) is Array)) ==> match sections@[k].member(
                    "metadata"@,
                ) {
                    JsonValue::Array(metadata) => opt_string_view(r.0) == last_text_titled(metadata@, "Album"@)
                        && opt_string_view(r.1) == last_text_titled(metadata@, "Released"@),
                    _ => true,
                },
            _ => r == (None::<String>, None::<String>),
        },
{
    let sections = get_in(json.get("track"), "sections");
    match sections {
        Some(JsonValue::Array(sections)) => {
            let mut k: usize = 0;
            while k < sections.len()
                invariant
                    k <= sections@.len(),
                    track(*json).member("sections"@) == JsonValue::Array(*sections),
                    forall|j: int| 0 <= j < k ==> song_section_metadata(#[trigger] sections@[j]) is None,
                decreases sections.len() - k,
            {
                let section = &sections[k];
                let is_song = match text_of(section.get("type")) {
                    Some(t) => string_eq_str(t, "SONG"),
                    None => false,
                };
                if is_song {
                    match section.get("metadata") {
                        Some(JsonValue::Array(metadata)) => {
                            proof {
                                lemma_first_song_metadata_skip(sections@, k as int);
                                assert(sections@.skip(k as int)[0] == sections@[k as int]);
                            }
                            return read_metadata(metadata);
                        },
                        _ => {},
                    }
                }
                assert(song_section_metadata(sections@[k as int]) is None);
                k = k + 1;
            }
            proof {
                lemma_first_song_metadata_skip(sections@, sections@.len() as int);
            }
            (None, None)
        },
        _ => (None, None),
    }
}

/// Where to fetch the cover art from, once the answer has named the artist
/// and the title: the cover is fetched before the track key is read.
pub fn cover_to_fetch(json: &JsonValue) -> (r: Option<String>)
    ensures
        opt_string_view(r) == (if answer_names_song(*json) { answer_cover_url(*json) } else { None }),
{
    let t = json.get("track");
    if text_of(get_in(t, "subtitle")).is_none() || text_of(get_in(t, "title")).is_none() {
        return None;
    }
    match text_of(get_in(get_in(t, "images"), "coverart")) {
        Some(url) => Some(url.clone()),
        None => None,
    }
}

/// What the main window learns of a recognition attempt, given the answer
/// (`json`), the answer written on one line (`shazam_json`) and the outcome of
/// fetching the cover art (`None` where none was fetched).
pub open spec fn recognition_result_ok(
    json: JsonValue,
    shazam_json: Seq<char>,
    cover: Option<Result<Vec<u8>, String>>,
    m: SongRecognizedMessage,
) -> bool {
    &&& track(json).member("subtitle"@).text() == Some(m.artist_name@)
    &&& track(json).member("title"@).text() == Some(m.song_name@)
    &&& track(json).member("key"@).text() == Some(m.track_key@)
    &&& opt_string_view(m.album_name) == answer_album(json)
    &&& opt_string_view(m.release_year) == answer_release_year(json)
    &&& opt_string_view(m.genre) == track(json).member("genres"@).member("primary"@).text()
    &&& m.shazam_json@ == shazam_json
    &&& m.cover_image == (match cover {
        Some(Ok(bytes)) => Some(bytes),
        _ => None,
    })
}

/// Builds the recognised song out of the service's answer. The answer must
/// name the artist and the title, the cover (where it was fetched) must have
/// arrived, and the answer must name the track key, in that order.
pub fn try_recognize_song(
    json: &JsonValue,
    shazam_json: String,
    cover: Option<Result<Vec<u8>, String>>,
) -> (r: Result<SongRecognizedMessage, RecognitionError>)
    ensures
        !answer_names_song(*json) ==> r matches Err(RecognitionError::NoMatch),
        answer_names_song(*json) && (cover matches Some(Err(_))) ==> (r matches Err(
            RecognitionError::Network(e),
        ) && cover == Some(Err::<Vec<u8>, String>(e))),
        answer_names_song(*json) && !(cover matches Some(Err(_))) && track(*json).member(
            "key"@,
        ).text() is None ==> r matches Err(RecognitionError::NoMatch),
        r matches Ok(m) ==> recognition_result_ok(*json, shazam_json@, cover, m),
        answer_names_song(*json) && !(cover matches Some(Err(_))) && track(*json).member(
            "key"@,
        ).text() is Some ==> r is Ok,
{
    let (album_name, release_year) = read_album_and_year(json);
    let t = json.get("track");
    let artist_name = match text_of(get_in(t, "subtitle")) {
        Some(s) => s.clone(),
        None => return Err(RecognitionError::NoMatch),
    };
    let song_name = match text_of(get_in(t, "title")) {
        Some(s) => s.clone(),
        None => return Err(RecognitionError::NoMatch),
    };
    let cover_image = match cover {
        Some(Ok(bytes)) => Some(bytes),
        Some(Err(e)) => return Err(RecognitionError::Network(e)),
        None => None,
    };
    let track_key = match text_of(get_in(t, "key")) {
        Some(s) => s.clone(),
        None => return Err(RecognitionError::NoMatch),
    };
    let genre = match text_of(get_in(get_in(t, "genres"), "primary")) {
        Some(s) => Some(s.clone()),
        None => None,
    };
    Ok(SongRecognizedMessage {
        artist_name,
        album_name,
        song_name,
        cover_image,
        track_key,
        release_year,
        genre,
        shazam_json,
    })
}


/// What the window is told after a recognition attempt: a song, with the
/// network reachable and no rate limit; no song, with the network reachable
/// and no rate limit (`no_match_text` is the text shown for it); a rate limit
/// alone; or an unreachable network alone.
pub fn recognition_messages(
    outcome: Result<SongRecognizedMessage, RecognitionError>,
    no_match_text: String,
) -> (r: Vec<GuiMessage>)
    ensures
        r@ == match outcome {
            Ok(m) => seq![
                GuiMessage::SongRecognized(m),
                GuiMessage::NetworkStatus(true),
                GuiMessage::RateLimitState(false),
            ],
            Err(RecognitionError::NoMatch) => seq![
                GuiMessage::ErrorMessage(no_match_text),
                GuiMessage::NetworkStatus(true),
                GuiMessage::RateLimitState(false),
            ],
            Err(RecognitionError::RateLimited) => seq![GuiMessage::RateLimitState(true)],
            Err(RecognitionError::Network(_)) => seq![GuiMessage::NetworkStatus(false)],
        },
{
    let mut r: Vec<GuiMessage> = Vec::new();
    match outcome {
        Ok(m) => {
            r.push(GuiMessage::SongRecognized(m));
            r.push(GuiMessage::NetworkStatus(true));
            r.push(GuiMessage::RateLimitState(false));
        },
        Err(RecognitionError::NoMatch) => {
            r.push(GuiMessage::ErrorMessage(no_match_text));
            r.push(GuiMessage::NetworkStatus(true));
            r.push(GuiMessage::RateLimitState(false));
        },
        Err(RecognitionError::RateLimited) => {
            r.push(GuiMessage::RateLimitState(true));
        },
        Err(RecognitionError::Network(_)) => {
            r.push(GuiMessage::NetworkStatus(false));
        },
    }
    r
}

/// What `regex::Regex::new(pattern)` followed by `replace_all(haystack,
/// replacement)` gives: `None` where the pattern is refused.
pub uninterp spec fn regex_replace_all(
    pattern: Seq<char>,
    haystack: Seq<char>,
    replacement: Seq<char>,
) -> Option<Seq<char>>;

/// Compiles `pattern` with `regex::Regex::new` and replaces every
/// non-overlapping match in `haystack` with `replacement` (`$1` standing for
/// the first group) with `Regex::replace_all`. Regular-expression matching is
/// not written out here: the result is only named.
#[verifier::external_body]
fn replace_all_matches(pattern: &str, haystack: &str, replacement: &str) -> (r: Option<String>)
    ensures
        opt_string_view(r) == regex_replace_all(pattern@, haystack@, replacement@),
{
    match regex::Regex::new(pattern) {
        Ok(re) => Some(re.replace_all(haystack, replacement).into_owned()),
        Err(_) => None,
    }
}

/// The pretty-printed answer, written on one line: a line break and the
/// indentation after a comma or a colon become one space, other line breaks
/// and their indentation go.
pub open spec fn compact_json_spec(pretty: Seq<char>) -> Option<Seq<char>> {
    match regex_replace_all("([,:])\n *"@, pretty, "$1 "@) {
        Some(once) => regex_replace_all("\n *"@, once, ""@),
        None => None,
    }
}

/// Writes the pretty-printed answer on one line; `None` only where the
/// regular-expression library refuses one of the two fixed patterns.
pub fn compact_json(pretty: &str) -> (r: Option<String>)
    ensures
        opt_string_view(r) == compact_json_spec(pretty@),
{
    match replace_all_matches("([,:])\n *", pretty, "$1 ") {
        Some(once) => replace_all_matches("\n *", once.as_str(), ""),
        None => None,
    }
}

/// The address to which a recognition request goes, for the two request
/// identifiers (the first one written in upper case).
pub open spec fn recognition_url_spec(tag_id: Seq<char>, session_id: Seq<char>) -> Seq<char> {
    "https://amp.shazam.com/discovery/v5/en/US/android/-/tag/"@ + tag_id + "/"@ + session_id
        + "?sync=true&webv3=true&sampling=true&connected=&shazamapiversion=v3&sharehub=true&video=v3"@
}

/// The address to which a recognition request goes, for two fresh request
/// identifiers; the first one is written in upper case.
pub fn recognition_url(tag_id: &str, session_id: &str) -> (r: String)
    ensures
        r@ == recognition_url_spec(uppercase(tag_id@), session_id@),
{
    let tag = to_uppercase(tag_id);
    let mut r = String::from_str("https://amp.shazam.com/discovery/v5/en/US/android/-/tag/");
    r.append(tag.as_str());
    r.append("/");
    r.append(session_id);
    r.append("?sync=true&webv3=true&sampling=true&connected=&shazamapiversion=v3&sharehub=true&video=v3");
    r
}

} // verus!
