//! The history of recognised songs: newest first in memory, oldest first
//! on disk.

use vstd::prelude::*;

verus! {

/// One recognised song, as the history keeps it.
pub struct SongHistoryRecord {
    pub song_name: String,
    pub album: Option<String>,
    pub track_key: Option<String>,
    pub release_year: Option<String>,
    pub genre: Option<String>,
    pub recognition_date: String,
}

fn duplicate_text(o: &Option<String>) -> (r: Option<String>)
    ensures
        r == *o,
{
    match o {
        Some(s) => Some(s.clone()),
        None => None,
    }
}

impl SongHistoryRecord {
    /// A copy of the record.
    pub fn duplicate(&self) -> (r: SongHistoryRecord)
        ensures
            r == *self,
    {
        SongHistoryRecord {
            song_name: self.song_name.clone(),
            album: duplicate_text(&self.album),
            track_key: duplicate_text(&self.track_key),
            release_year: duplicate_text(&self.release_year),
            genre: duplicate_text(&self.genre),
            recognition_date: self.recognition_date.clone(),
        }
    }
}

/// The point in time, as whole seconds since 1970 (the date and time taken
/// as UTC) and nanoseconds within that second, that
/// `chrono::NaiveDateTime::parse_from_str(s, "%c")` reads in `s`; `None` where
/// it reads none.
pub uninterp spec fn parsed_recognition_date(s: Seq<char>) -> Option<(i64, u32)>;

/// Reads a recognition date written in the `%c` form ("Sat Aug 17 22:44:43
/// 2024") with `chrono::NaiveDateTime::parse_from_str`, and gives it as
/// `(timestamp, nanoseconds)` of `and_utc()`; these pairs are ordered as the
/// date-times are. The parse itself is only named.
#[verifier::external_body]
pub(crate) fn recognition_date_key(s: &str) -> (r: Option<(i64, u32)>)
    ensures
        r == parsed_recognition_date(s@),
{
    match chrono::NaiveDateTime::parse_from_str(s, "%c") {
        Ok(d) => Some((d.and_utc().timestamp(), d.and_utc().timestamp_subsec_nanos())),
        Err(_) => None,
    }
}

/// The date by which a row read from disk is ordered; an unreadable row, or
/// one whose date cannot be read, has none.
pub open spec fn date_key(row: Option<SongHistoryRecord>) -> Option<(i64, u32)> {
    match row {
        Some(r) => parsed_recognition_date(r.recognition_date@),
        None => None,
    }
}

/// The order of dates: no date comes before every date.
pub open spec fn key_lt(a: Option<(i64, u32)>, b: Option<(i64, u32)>) -> bool {
    match (a, b) {
        (None, Some(_)) => true,
        (Some(x), Some(y)) => x.0 < y.0 || (x.0 == y.0 && x.1 < y.1),
        _ => false,
    }
}

/// Rows ordered by date, rows with the same date by their position.
pub open spec fn entry_lt(ka: Option<(i64, u32)>, ia: int, kb: Option<(i64, u32)>, ib: int) -> bool {
    key_lt(ka, kb) || (ka == kb && ia < ib)
}

/// The dates of the rows.
pub open spec fn row_keys(rows: Seq<Option<SongHistoryRecord>>) -> Seq<Option<(i64, u32)>> {
    rows.map_values(|r: Option<SongHistoryRecord>| date_key(r))
}

/// `p` lists every position of `keys` once, in the order of a stable sort by
/// date.
pub open spec fn is_history_order(keys: Seq<Option<(i64, u32)>>, p: Seq<int>) -> bool {
    &&& p.len() == keys.len()
    &&& forall|i: int| 0 <= i < p.len() ==> 0 <= #[trigger] p[i] < keys.len()
    &&& forall|i: int, j: int|
        0 <= i < j < p.len() ==> entry_lt(keys[p[i]], p[i], keys[p[j]], p[j])
}

/// The readable rows, from the last to the first.
pub open spec fn newest_first(rows: Seq<Option<SongHistoryRecord>>) -> Seq<SongHistoryRecord>
    decreases rows.len(),
{
    if rows.len() == 0 {
        Seq::empty()
    } else {
        match rows.last() {
            Some(r) => seq![r] + newest_first(rows.drop_last()),
            None => newest_first(rows.drop_last()),
        }
    }
}

/// The rows in the order `p` gives.
pub open spec fn permuted(rows: Seq<Option<SongHistoryRecord>>, p: Seq<int>) -> Seq<Option<SongHistoryRecord>> {
    p.map_values(|i: int| rows[i])
}

/// What reading the rows of the history file gives: the readable rows,
/// newest first; rows of one date, or without a date, in the reverse of their
/// order in the file, and rows without a date last.
pub open spec fn history_from_rows(rows: Seq<Option<SongHistoryRecord>>, records: Seq<SongHistoryRecord>) -> bool {
    exists|p: Seq<int>| is_history_order(row_keys(rows), p) && records == newest_first(permuted(rows, p))
}

fn key_less(a: &Option<(i64, u32)>, b: &Option<(i64, u32)>) -> (r: bool)
    ensures
        r == key_lt(*a, *b),
{
    match (a, b) {
        (None, Some(_)) => true,
        (Some(x), Some(y)) => x.0 < y.0 || (x.0 == y.0 && x.1 < y.1),
        _ => false,
    }
}

fn key_equal(a: &Option<(i64, u32)>, b: &Option<(i64, u32)>) -> (r: bool)
    ensures
        r == (*a == *b),
{
    match (a, b) {
        (None, None) => true,
        (Some(x), Some(y)) => x.0 == y.0 && x.1 == y.1,
        _ => false,
    }
}

type Entry = (Option<(i64, u32)>, usize, Option<SongHistoryRecord>);

pub open spec fn entry_before(a: Entry, b: Entry) -> bool {
    entry_lt(a.0, a.1 as int, b.0, b.1 as int)
}

fn entry_less(a: &Entry, b: &Entry) -> (r: bool)
    ensures
        r == entry_before(*a, *b),
{
    key_less(&a.0, &b.0) || (key_equal(&a.0, &b.0) && a.1 < b.1)
}

/// The entry that stands for row `j`.
pub open spec fn entry_of(rows: Seq<Option<SongHistoryRecord>>, j: int) -> Entry {
    (date_key(rows[j]), j as usize, rows[j])
}

pub open spec fn entry_index(e: Entry) -> int {
    e.1 as int
}

pub open spec fn entry_row(e: Entry) -> Option<SongHistoryRecord> {
    e.2
}

/// Sorts the rows by date, stably.
fn sort_rows(rows: Vec<Option<SongHistoryRecord>>) -> (r: Vec<Entry>)
    ensures
        is_history_order(row_keys(rows@), r@.map_values(|e: Entry| entry_index(e))),
        r@.map_values(|e: Entry| entry_row(e)) == permuted(rows@, r@.map_values(|e: Entry| entry_index(e))),
{
    let ghost orig = rows@;
    let n = rows.len();
    let mut rows = rows;
    let mut rem: Vec<Entry> = Vec::new();
    let mut i: usize = 0;
    while rows.len() > 0
        invariant
            n == orig.len(),
            i + rows@.len() == n,
            rows@ == orig.skip(i as int),
            rem@.len() == i,
            forall|k: int| 0 <= k < i ==> #[trigger] rem@[k] == entry_of(orig, k),
        decreases rows.len(),
    {
        let row = rows.remove(0);
        assert(orig.skip(i as int).remove(0) =~= orig.skip(i + 1));
        let key = match &row {
            Some(r) => recognition_date_key(r.recognition_date.as_str()),
            None => None,
        };
        rem.push((key, i, row));
        i = i + 1;
    }
    let mut out: Vec<Entry> = Vec::new();
    while rem.len() > 0
        invariant
            n == orig.len(),
            out@.len() + rem@.len() == n,
            forall|k: int| 0 <= k < rem@.len() ==> 0 <= entry_index(#[trigger] rem@[k]) < n
                && rem@[k] == entry_of(orig, entry_index(rem@[k])),
            forall|a: int, b: int| 0 <= a < b < rem@.len() ==> entry_index(#[trigger] rem@[a]) < entry_index(#[trigger] rem@[b]),
            forall|k: int| 0 <= k < out@.len() ==> 0 <= entry_index(#[trigger] out@[k]) < n
                && out@[k] == entry_of(orig, entry_index(out@[k])),
            forall|a: int, b: int| 0 <= a < b < out@.len() ==> entry_before(#[trigger] out@[a], #[trigger] out@[b]),
            forall|a: int, b: int| 0 <= a < out@.len() && 0 <= b < rem@.len() ==> entry_before(#[trigger] out@[a], #[trigger] rem@[b]),
        decreases rem.len(),
    {
        let mut m: usize = 0;
        let mut k: usize = 1;
        while k < rem.len()
            invariant
                0 <= m < rem@.len(),
                1 <= k <= rem@.len(),
                forall|j: int| 0 <= j < k ==> !entry_before(#[trigger] rem@[j], rem@[m as int]),
            decreases rem.len() - k,
        {
            if entry_less(&rem[k], &rem[m]) {
                m = k;
            }
            k = k + 1;
        }
        let ghost before = rem@;
        let x = rem.remove(m);
        proof {
            before.remove_ensures(m as int);
            assert forall|b: int| 0 <= b < rem@.len() implies entry_before(x, #[trigger] rem@[b]) by {
                let j = if b < m { b } else { b + 1 };
                assert(rem@[b] == before[j]);
                assert(!entry_before(before[j], before[m as int]));
                assert(entry_index(before[j]) != entry_index(before[m as int]));
            }
        }
        out.push(x);
    }
    proof {
        let p = out@.map_values(|e: Entry| entry_index(e));
        assert forall|a: int, b: int| 0 <= a < b < p.len() implies entry_lt(
            row_keys(orig)[p[a]],
            p[a],
            row_keys(orig)[p[b]],
            p[b],
        ) by {
            assert(entry_before(out@[a], out@[b]));
        }
        assert(out@.map_values(|e: Entry| entry_row(e)) =~= permuted(orig, p));
    }
    out
}

/// Keeps the readable rows, from the last to the first.
fn readable_newest_first(sorted: Vec<Entry>) -> (r: Vec<SongHistoryRecord>)
    ensures
        r@ == newest_first(sorted@.map_values(|e: Entry| entry_row(e))),
{
    let ghost all = sorted@.map_values(|e: Entry| entry_row(e));
    let mut sorted = sorted;
    let mut r: Vec<SongHistoryRecord> = Vec::new();
    assert(all.take(all.len() as int) =~= all);
    assert(r@ + newest_first(all) =~= newest_first(all));
    while sorted.len() > 0
        invariant
            sorted@.len() <= all.len(),
            sorted@.map_values(|e: Entry| entry_row(e)) == all.take(sorted@.len() as int),
            r@ + newest_first(all.take(sorted@.len() as int)) == newest_first(all),
        decreases sorted.len(),
    {
        let ghost len = sorted@.len();
        let e = sorted.pop().unwrap();
        proof {
            assert(all.take(len as int).drop_last() =~= all.take(len - 1));
            assert(all.take(len as int).last() == e.2);
        }
        match e.2 {
            Some(rec) => {
                r.push(rec);
                assert(r@ + newest_first(all.take(len - 1)) =~= (r@.drop_last() + seq![r@.last()]) + newest_first(all.take(len - 1)));
            },
            None => {},
        }
        assert(sorted@.map_values(|e: Entry| entry_row(e)) =~= all.take(sorted@.len() as int));
    }
    assert(r@ =~= newest_first(all));
    r
}

/// Orders the rows read from the history file as the history shows them.
pub fn order_history(rows: Vec<Option<SongHistoryRecord>>) -> (r: Vec<SongHistoryRecord>)
    ensures
        history_from_rows(rows@, r@),
{
    let ghost orig = rows@;
    let sorted = sort_rows(rows);
    let ghost p = sorted@.map_values(|e: Entry| entry_index(e));
    let r = readable_newest_first(sorted);
    assert(is_history_order(row_keys(orig), p) && r@ == newest_first(permuted(orig, p)));
    r
}


/// Two records stand for the same recognition: same song, same date.
pub open spec fn same_recognition(a: SongHistoryRecord, b: SongHistoryRecord) -> bool {
    a.song_name@ == b.song_name@ && a.recognition_date@ == b.recognition_date@
}

/// The records that do not stand for the same recognition as `record`.
pub open spec fn without_recognition(records: Seq<SongHistoryRecord>, record: SongHistoryRecord) -> Seq<SongHistoryRecord> {
    records.filter(|r: SongHistoryRecord| !same_recognition(r, record))
}

/// The history of recognised songs, newest first, and the file that keeps it.
pub struct RecognitionHistoryInterface {
    pub csv_path: String,
    pub records: Vec<SongHistoryRecord>,
}

impl RecognitionHistoryInterface {
    /// A history kept at the path given, holding what was read from it:
    /// `rows` is `None` where the file could not be opened, and otherwise
    /// holds each row, `None` for a row that could not be read. Where no path
    /// could be had, its error comes back.
    pub fn new(
        csv_path: Result<String, String>,
        rows: Option<Vec<Option<SongHistoryRecord>>>,
    ) -> (r: Result<Self, String>)
        ensures
            match csv_path {
                Err(e) => r == Err::<Self, String>(e),
                Ok(p) => r matches Ok(h) && h.csv_path == p && match rows {
                    Some(rs) => history_from_rows(rs@, h.records@),
                    None => h.records@.len() == 0,
                },
            },
    {
        let csv_path = match csv_path {
            Ok(p) => p,
            Err(e) => return Err(e),
        };
        let mut interface = RecognitionHistoryInterface { csv_path, records: Vec::new() };
        interface.load(rows);
        Ok(interface)
    }

    /// Takes in what was read from the history file: nothing changes where
    /// the file could not be opened.
    pub fn load(&mut self, rows: Option<Vec<Option<SongHistoryRecord>>>)
        ensures
            final(self).csv_path == old(self).csv_path,
            match rows {
                Some(rs) => history_from_rows(rs@, final(self).records@),
                None => final(self).records@ == old(self).records@,
            },
    {
        match rows {
            Some(rows) => {
                self.records = order_history(rows);
            },
            None => {},
        }
    }

    /// The rows to write to the history file: oldest first.
    pub fn save(&self) -> (r: Vec<SongHistoryRecord>)
        ensures
            r@ == self.records@.reverse(),
    {
        let n = self.records.len();
        let mut r: Vec<SongHistoryRecord> = Vec::new();
        let mut k: usize = 0;
        while k < n
            invariant
                n == self.records@.len(),
                k <= n,
                r@ =~= Seq::new(k as nat, |i: int| self.records@[n - 1 - i]),
            decreases n - k,
        {
            r.push(self.records[n - 1 - k].duplicate());
            k = k + 1;
        }
        assert(r@ =~= self.records@.reverse());
        r
    }

    /// Empties the history; the file is then written with no row.
    pub fn wipe_and_save(&mut self) -> (r: Vec<SongHistoryRecord>)
        ensures
            final(self).csv_path == old(self).csv_path,
            final(self).records@.len() == 0,
            r@.len() == 0,
    {
        self.records.clear();
        Vec::new()
    }

    /// Puts a record at the front of the history, and gives the rows to
    /// write to the file.
    pub fn add_row_and_save(&mut self, record: SongHistoryRecord) -> (r: Vec<SongHistoryRecord>)
        ensures
            final(self).csv_path == old(self).csv_path,
            final(self).records@ == seq![record] + old(self).records@,
            r@ == final(self).records@.reverse(),
    {
        self.records.insert(0, record);
        assert(self.records@ =~= seq![record] + old(self).records@);
        self.save()
    }

    /// Drops every record of the same song and date as `record`, and gives
    /// the rows to write to the file.
    pub fn remove(&mut self, record: &SongHistoryRecord) -> (r: Vec<SongHistoryRecord>)
        ensures
            final(self).csv_path == old(self).csv_path,
            final(self).records@ == without_recognition(old(self).records@, *record),
            r@ == final(self).records@.reverse(),
    {
        let ghost orig = self.records@;
        let ghost keep = |r: SongHistoryRecord| !same_recognition(r, *record);
        let mut rest: Vec<SongHistoryRecord> = Vec::new();
        std::mem::swap(&mut rest, &mut self.records);
        let n = rest.len();
        let mut i: usize = 0;
        assert(orig.take(0).filter(keep) =~= Seq::<SongHistoryRecord>::empty()) by {
            reveal_with_fuel(Seq::<_>::filter, 1);
        }
        while rest.len() > 0
            invariant
                n == orig.len(),
                i + rest@.len() == n,
                rest@ == orig.skip(i as int),
                self.csv_path == old(self).csv_path,
                keep == (|r: SongHistoryRecord| !same_recognition(r, *record)),
                self.records@ == orig.take(i as int).filter(keep),
            decreases rest.len(),
        {
            let r = rest.remove(0);
            proof {
                assert(orig.skip(i as int).remove(0) =~= orig.skip(i + 1));
                assert(orig.take(i + 1).drop_last() =~= orig.take(i as int));
                assert(orig.take(i + 1).last() == r);
                reveal_with_fuel(Seq::<_>::filter, 1);
                assert(orig.take(i + 1).filter(keep) == if keep(r) {
                    orig.take(i as int).filter(keep).push(r)
                } else {
                    orig.take(i as int).filter(keep)
                });
            }
            let same = r.song_name == record.song_name && r.recognition_date == record.recognition_date;
            if !same {
                self.records.push(r);
            }
            i = i + 1;
        }
        assert(orig.take(n as int) =~= orig);
        assert(self.records@ == without_recognition(orig, *record));
        self.save()
    }

    /// The newest record has this track key.
    pub fn latest_track_key_is(&self, key: &String) -> (r: bool)
        ensures
            r == (self.records@.len() > 0 && (self.records@[0].track_key matches Some(k) && k@ == key@)),
    {
        if self.records.len() == 0 {
            return false;
        }
        match &self.records[0].track_key {
            Some(k) => *k == *key,
            None => false,
        }
    }
}


/// The date by which a record is ordered.
pub open spec fn record_key(r: SongHistoryRecord) -> Option<(i64, u32)> {
    parsed_recognition_date(r.recognition_date@)
}

/// Newest first: no record is older than one after it, and records without
/// a readable date come after every dated one.
pub open spec fn is_newest_first(records: Seq<SongHistoryRecord>) -> bool {
    forall|i: int, j: int|
        0 <= i < j < records.len() ==> !key_lt(#[trigger] record_key(records[i]), #[trigger] record_key(records[j]))
}

proof fn lemma_newest_first_of_readable(xs: Seq<SongHistoryRecord>)
    ensures
        newest_first(xs.map_values(|r: SongHistoryRecord| Some(r))) == xs.reverse(),
    decreases xs.len(),
{
    let ys = xs.map_values(|r: SongHistoryRecord| Some(r));
    if xs.len() > 0 {
        lemma_newest_first_of_readable(xs.drop_last());
        assert(ys.drop_last() =~= xs.drop_last().map_values(|r: SongHistoryRecord| Some(r)));
        assert(seq![xs.last()] + xs.drop_last().reverse() =~= xs.reverse());
    } else {
        assert(xs.reverse() =~= Seq::<SongHistoryRecord>::empty());
    }
}

/// Writing the history and reading the file back gives the same history,
/// whenever the history is newest first (as reading always leaves it).
pub proof fn saved_history_reads_back(records: Seq<SongHistoryRecord>)
    requires
        is_newest_first(records),
    ensures
        history_from_rows(records.reverse().map_values(|r: SongHistoryRecord| Some(r)), records),
{
    let n = records.len();
    let rows = records.reverse().map_values(|r: SongHistoryRecord| Some(r));
    let keys = row_keys(rows);
    let p = Seq::new(n, |i: int| i);
    assert forall|i: int, j: int| 0 <= i < j < p.len() implies entry_lt(keys[p[i]], p[i], keys[p[j]], p[j]) by {
        assert(keys[i] == record_key(records[n - 1 - i]));
        assert(keys[j] == record_key(records[n - 1 - j]));
        assert(!key_lt(record_key(records[n - 1 - j]), record_key(records[n - 1 - i])));
    }
    assert(permuted(rows, p) =~= rows);
    lemma_newest_first_of_readable(records.reverse());
    assert(records.reverse().reverse() =~= records);
    assert(is_history_order(keys, p));
    assert(records == newest_first(permuted(rows, p)));
}

proof fn lemma_newest_first_members(rows: Seq<Option<SongHistoryRecord>>, k: int)
    requires
        0 <= k < newest_first(rows).len(),
    ensures
        exists|j: int| 0 <= j < rows.len() && rows[j] == Some(#[trigger] newest_first(rows)[k]),
    decreases rows.len(),
{
    let rest = rows.drop_last();
    match rows.last() {
        Some(r) => {
            if k == 0 {
                assert(rows[rows.len() - 1] == Some(newest_first(rows)[k]));
            } else {
                lemma_newest_first_members(rest, k - 1);
                let j = choose|j: int| 0 <= j < rest.len() && rest[j] == Some(#[trigger] newest_first(rest)[k - 1]);
                assert(rows[j] == Some(newest_first(rows)[k]));
            }
        },
        None => {
            lemma_newest_first_members(rest, k);
            let j = choose|j: int| 0 <= j < rest.len() && rest[j] == Some(#[trigger] newest_first(rest)[k]);
            assert(rows[j] == Some(newest_first(rows)[k]));
        },
    }
}

proof fn lemma_newest_first_ordered(rows: Seq<Option<SongHistoryRecord>>)
    requires
        forall|i: int, j: int| 0 <= i < j < rows.len() ==> !key_lt(#[trigger] date_key(rows[j]), #[trigger] date_key(rows[i])),
    ensures
        is_newest_first(newest_first(rows)),
    decreases rows.len(),
{
    if rows.len() > 0 {
        let rest = rows.drop_last();
        lemma_newest_first_ordered(rest);
        match rows.last() {
            Some(r) => {
                let out = newest_first(rows);
                assert forall|i: int, j: int| 0 <= i < j < out.len() implies !key_lt(
                    #[trigger] record_key(out[i]),
                    #[trigger] record_key(out[j]),
                ) by {
                    if i == 0 {
                        lemma_newest_first_members(rest, j - 1);
                        let m = choose|m: int| 0 <= m < rest.len() && rest[m] == Some(#[trigger] newest_first(rest)[j - 1]);
                        assert(rows[m] == Some(out[j]));
                        assert(date_key(rows[m]) == record_key(out[j]));
                        assert(date_key(rows[rows.len() - 1]) == record_key(out[0]));
                    } else {
                        assert(out[i] == newest_first(rest)[i - 1]);
                        assert(out[j] == newest_first(rest)[j - 1]);
                    }
                }
            },
            None => {},
        }
    }
}

/// Reading the history file always leaves the history newest first.
pub proof fn read_history_is_newest_first(rows: Seq<Option<SongHistoryRecord>>, records: Seq<SongHistoryRecord>)
    requires
        history_from_rows(rows, records),
    ensures
        is_newest_first(records),
{
    let p = choose|p: Seq<int>| is_history_order(row_keys(rows), p) && records == newest_first(permuted(rows, p));
    let q = permuted(rows, p);
    assert forall|i: int, j: int| 0 <= i < j < q.len() implies !key_lt(#[trigger] date_key(q[j]), #[trigger] date_key(q[i])) by {
        assert(entry_lt(row_keys(rows)[p[i]], p[i], row_keys(rows)[p[j]], p[j]));
    }
    lemma_newest_first_ordered(q);
}

proof fn lemma_filter_keeps_all(s: Seq<SongHistoryRecord>, record: SongHistoryRecord)
    requires
        forall|i: int| 0 <= i < s.len() ==> !same_recognition(#[trigger] s[i], record),
    ensures
        without_recognition(s, record) == s,
    decreases s.len(),
{
    reveal_with_fuel(Seq::<_>::filter, 1);
    if s.len() > 0 {
        lemma_filter_keeps_all(s.drop_last(), record);
        assert(s.drop_last().push(s.last()) =~= s);
    }
}

/// Adding a recognition and then removing it gives back the history, when no
/// older record stood for the same song and date.
pub proof fn add_then_remove_restores(records: Seq<SongHistoryRecord>, record: SongHistoryRecord)
    requires
        forall|i: int| 0 <= i < records.len() ==> !same_recognition(#[trigger] records[i], record),
    ensures
        without_recognition(seq![record] + records, record) == records,
{
    records.lemma_filter_prepend(record, |r: SongHistoryRecord| !same_recognition(r, record));
    lemma_filter_keeps_all(records, record);
    assert(Seq::<SongHistoryRecord>::empty() + records =~= records);
}

/// Removing a recognition twice is removing it once.
pub proof fn remove_is_idempotent(records: Seq<SongHistoryRecord>, record: SongHistoryRecord)
    ensures
        without_recognition(without_recognition(records, record), record) == without_recognition(records, record),
{
    let once = without_recognition(records, record);
    assert forall|i: int| 0 <= i < once.len() implies !same_recognition(#[trigger] once[i], record) by {
        records.lemma_filter_pred(|r: SongHistoryRecord| !same_recognition(r, record), i);
    }
    lemma_filter_keeps_all(once, record);
}

} // verus!
