//! The dataset of songs: from records to a lookup table, and its refresh from the network.

use crate::journal::Journal;
use crate::text;
use crate::types::Song;
use std::collections::HashMap;
use vstd::prelude::*;
use vstd::slice::slice_subrange;
use vstd::string::*;

verus! {

/// The songs by their number.
pub type SongsById = HashMap<i32, Song>;

/// Where the dataset is fetched from.
pub const SONGS_URL: &'static str = "https://raw.githubusercontent.com/beer-psi/chuni-penguin/refs/heads/trunk/chuni_penguin/database/seeds/songs.json";

/// How often a fetch is tried.
pub const SONGS_FETCH_RETRIES: usize = 5;

/// The pause between two tries, in milliseconds.
pub const SONGS_FETCH_RETRY_DELAY_MILLIS: u64 = 500;

/// The file that the last fetched dataset is kept in.
pub const SONGS_CACHE_FILE_NAME: &'static str = "chunithm_songs_cache.json";

/// The bytes that mark a text as UTF-8.
pub open spec fn byte_order_mark() -> Seq<u8> {
    seq![0xEF, 0xBB, 0xBF]
}

/// `bytes` without a byte order mark in front.
pub open spec fn without_byte_order_mark(bytes: Seq<u8>) -> Seq<u8> {
    if byte_order_mark().is_prefix_of(bytes) {
        bytes.skip(3)
    } else {
        bytes
    }
}

/// The part of a dataset file that is JSON: all of it but a byte order mark in front.
pub fn songs_json(bytes: &[u8]) -> (r: &[u8])
    ensures
        r@ == without_byte_order_mark(bytes@),
{
    if bytes.len() >= 3 && bytes[0] == 0xEF && bytes[1] == 0xBB && bytes[2] == 0xBF {
        assert(byte_order_mark() =~= bytes@.subrange(0, 3));
        slice_subrange(bytes, 3, bytes.len())
    } else {
        proof {
            if byte_order_mark().is_prefix_of(bytes@) {
                assert(bytes@.subrange(0, 3)[0] == byte_order_mark()[0]);
                assert(bytes@.subrange(0, 3)[1] == byte_order_mark()[1]);
                assert(bytes@.subrange(0, 3)[2] == byte_order_mark()[2]);
            }
        }
        bytes
    }
}

/// The songs whose identifier is a number, by that number. Of two songs with the same number the
/// later one counts.
pub open spec fn songs_by_number(songs: Seq<Song>) -> Map<i32, Song>
    decreases songs.len(),
{
    if songs.len() == 0 {
        Map::empty()
    } else {
        let earlier = songs_by_number(songs.drop_last());
        match text::i32_in_text(songs.last().id@) {
            Some(number) => earlier.insert(number, songs.last()),
            None => earlier,
        }
    }
}

/// A line for each song whose identifier is no number.
pub open spec fn skipped_song_lines(songs: Seq<Song>) -> Seq<Seq<char>>
    decreases songs.len(),
{
    if songs.len() == 0 {
        Seq::empty()
    } else {
        let earlier = skipped_song_lines(songs.drop_last());
        match text::i32_in_text(songs.last().id@) {
            Some(number) => earlier,
            None => earlier.push("Skipping song with non-numeric ID: "@ + songs.last().id@),
        }
    }
}

/// The lookup table of the songs whose identifier is a number.
pub fn songs_to_map(songs: Vec<Song>, log: &mut Journal) -> (r: SongsById)
    ensures
        r@ == songs_by_number(songs@),
        final(log)@ == old(log)@ + skipped_song_lines(songs@),
{
    broadcast use vstd::std_specs::hash::group_hash_axioms;

    let mut by_id: SongsById = HashMap::new();
    let ghost all = songs@;
    assert(log@ =~= old(log)@ + skipped_song_lines(all.take(0)));
    for song in it: songs.into_iter()
        invariant
            it.seq() == all,
            by_id@ == songs_by_number(all.take(it.index())),
            log@ == old(log)@ + skipped_song_lines(all.take(it.index())),
    {
        proof {
            assert(all.take(it.index() + 1).drop_last() =~= all.take(it.index()));
            assert(all.take(it.index() + 1).last() == song);
        }
        match text::parse_i32(song.id.as_str()) {
            Some(song_id) => {
                by_id.insert(song_id, song);
            },
            None => {
                let line: String = "Skipping song with non-numeric ID: ".to_owned().concat(
                    song.id.as_str(),
                );
                log.record(line);
                assert(log@ =~= old(log)@ + skipped_song_lines(all.take(it.index() + 1)));
            },
        }
    }
    assert(all.take(all.len() as int) =~= all);
    by_id
}

/// The song with this number.
pub fn get_song_by_id(songs: &SongsById, song_id: i32) -> (r: Option<&Song>)
    ensures
        match r {
            Some(song) => songs@.contains_key(song_id) && songs@[song_id] == *song,
            None => !songs@.contains_key(song_id),
        },
{
    broadcast use vstd::std_specs::hash::group_hash_axioms;

    songs.get(&song_id)
}

/// Why the local copy of the dataset could not be used, with the reason that was given.
#[derive(Debug)]
pub enum SongsCacheLoadError {
    Read(String),
    Parse(String),
}

impl SongsCacheLoadError {
    /// The error in words.
    pub open spec fn text(&self) -> Seq<char> {
        match *self {
            SongsCacheLoadError::Read(reason) => "failed to read songs cache: "@ + reason@,
            SongsCacheLoadError::Parse(reason) => "failed to parse songs cache JSON: "@ + reason@,
        }
    }

    /// The error in words.
    pub fn message(&self) -> (r: String)
        ensures
            r@ == self.text(),
    {
        match self {
            SongsCacheLoadError::Read(reason) => "failed to read songs cache: ".to_owned().concat(
                reason.as_str(),
            ),
            SongsCacheLoadError::Parse(reason) => {
                "failed to parse songs cache JSON: ".to_owned().concat(reason.as_str())
            },
        }
    }
}

/// Why a fetch of the dataset failed, with the reason that was given.
#[derive(Debug)]
pub enum SongsRefreshError {
    Request(String),
    ReadBody(String),
    Parse(String),
}

impl SongsRefreshError {
    /// The error in words.
    pub open spec fn text(&self) -> Seq<char> {
        match *self {
            SongsRefreshError::Request(reason) => "request failed: "@ + reason@,
            SongsRefreshError::ReadBody(reason) => "failed to read songs response body: "@
                + reason@,
            SongsRefreshError::Parse(reason) => "failed to parse songs JSON: "@ + reason@,
        }
    }

    /// The error in words.
    pub fn message(&self) -> (r: String)
        ensures
            r@ == self.text(),
    {
        match self {
            SongsRefreshError::Request(reason) => "request failed: ".to_owned().concat(
                reason.as_str(),
            ),
            SongsRefreshError::ReadBody(reason) => {
                "failed to read songs response body: ".to_owned().concat(reason.as_str())
            },
            SongsRefreshError::Parse(reason) => "failed to parse songs JSON: ".to_owned().concat(
                reason.as_str(),
            ),
        }
    }
}

/// The line on a dataset of `count` songs that came from the cache at `path`.
pub open spec fn cache_loaded_line(count: nat, path: Seq<char>) -> Seq<char> {
    "Loaded "@ + text::decimal(count as int) + " songs from local cache "@ + path
}

/// The dataset in the cache at `path`, from what reading and parsing that file gave.
pub fn load_songs_from_cache(
    path: &str,
    cached: Result<Vec<Song>, SongsCacheLoadError>,
    log: &mut Journal,
) -> (r: Result<SongsById, SongsCacheLoadError>)
    ensures
        match cached {
            Ok(songs) => {
                &&& r is Ok
                &&& r->Ok_0@ == songs_by_number(songs@)
                &&& final(log)@ == (old(log)@ + skipped_song_lines(songs@)).push(
                    cache_loaded_line(songs_by_number(songs@).len(), path@),
                )
            },
            Err(error) => r == Err::<SongsById, _>(error) && final(log)@ == old(log)@,
        },
{
    broadcast use vstd::std_specs::hash::group_hash_axioms;

    match cached {
        Ok(songs) => {
            let songs_by_id = songs_to_map(songs, log);
            let mut line: String = "Loaded ".to_owned();
            text::append_number(&mut line, songs_by_id.len() as u64, 10, 0);
            line.append(" songs from local cache ");
            line.append(path);
            log.record(line);
            Ok(songs_by_id)
        },
        Err(error) => Err(error),
    }
}

/// The dataset that the program starts with: that of the cache, or an empty one.
pub fn load_initial_songs(
    path: &str,
    cached: Result<Vec<Song>, SongsCacheLoadError>,
    log: &mut Journal,
) -> (r: SongsById)
    ensures
        match cached {
            Ok(songs) => {
                &&& r@ == songs_by_number(songs@)
                &&& final(log)@ == (old(log)@ + skipped_song_lines(songs@)).push(
                    cache_loaded_line(songs_by_number(songs@).len(), path@),
                )
            },
            Err(error) => {
                &&& r@ == Map::<i32, Song>::empty()
                &&& final(log)@ == old(log)@.push(
                    "Failed to load local songs cache: "@ + error.text()
                        + ". Starting with empty dataset."@,
                )
            },
        },
{
    match load_songs_from_cache(path, cached, log) {
        Ok(songs) => songs,
        Err(error) => {
            let line: String = "Failed to load local songs cache: ".to_owned().concat(
                error.message().as_str(),
            ).concat(". Starting with empty dataset.");
            log.record(line);
            HashMap::new()
        },
    }
}

/// How far a refresh of the dataset has come. Each stage but the last waits for one outside
/// operation.
pub enum SongsRefresh {
    /// The HTTP client is to be made.
    Starting,
    /// The dataset is to be fetched; this is try number `attempt`.
    Fetching { attempt: usize },
    /// Try number `attempt` failed and the pause is to be waited for.
    Waiting { attempt: usize },
    /// The fetched bytes, `body`, are to be written to the cache.
    Caching { songs: SongsById, body: Vec<u8> },
    /// The table is to replace the one in use.
    Publishing { songs: SongsById },
    /// Nothing is left to do.
    Finished,
}

/// What the outside operation of a stage came to. An error is given in words.
pub enum SongsRefreshEvent {
    ClientCreated,
    ClientFailed(String),
    /// The songs in the dataset, and the bytes that it was fetched as.
    Fetched { songs: Vec<Song>, body: Vec<u8> },
    FetchFailed(SongsRefreshError),
    Waited,
    CacheWritten,
    CacheFailed(String),
    Published,
    PublishFailed(String),
}

/// The stage of a refresh as mathematical values.
#[verifier::ext_equal]
pub enum RefreshView {
    Starting,
    Fetching { attempt: int },
    Waiting { attempt: int },
    Caching { songs: Map<i32, Song>, body: Seq<u8> },
    Publishing { songs: Map<i32, Song> },
    Finished,
}

impl View for SongsRefresh {
    type V = RefreshView;

    open spec fn view(&self) -> RefreshView {
        match *self {
            SongsRefresh::Starting => RefreshView::Starting,
            SongsRefresh::Fetching { attempt } => RefreshView::Fetching { attempt: attempt as int },
            SongsRefresh::Waiting { attempt } => RefreshView::Waiting { attempt: attempt as int },
            SongsRefresh::Caching { songs, body } => RefreshView::Caching {
                songs: songs@,
                body: body@,
            },
            SongsRefresh::Publishing { songs } => RefreshView::Publishing { songs: songs@ },
            SongsRefresh::Finished => RefreshView::Finished,
        }
    }
}

impl RefreshView {
    /// The tries are counted from one, and a pause follows only a try that was not the last.
    pub open spec fn wf(self) -> bool {
        match self {
            RefreshView::Fetching { attempt } => 1 <= attempt <= SONGS_FETCH_RETRIES,
            RefreshView::Waiting { attempt } => 1 <= attempt < SONGS_FETCH_RETRIES,
            _ => true,
        }
    }

    /// The stage after `event`. An event that does not answer the stage's operation changes nothing.
    pub open spec fn after(self, event: SongsRefreshEvent) -> RefreshView {
        match (self, event) {
            (RefreshView::Starting, SongsRefreshEvent::ClientCreated) => RefreshView::Fetching {
                attempt: 1,
            },
            (RefreshView::Starting, SongsRefreshEvent::ClientFailed(_)) => RefreshView::Finished,
            (
                RefreshView::Fetching { attempt },
                SongsRefreshEvent::Fetched { songs, body },
            ) => RefreshView::Caching { songs: songs_by_number(songs@), body: body@ },
            (RefreshView::Fetching { attempt }, SongsRefreshEvent::FetchFailed(_)) => if attempt
                < SONGS_FETCH_RETRIES {
                RefreshView::Waiting { attempt }
            } else {
                RefreshView::Finished
            },
            (RefreshView::Waiting { attempt }, SongsRefreshEvent::Waited) => RefreshView::Fetching {
                attempt: attempt + 1,
            },
            (RefreshView::Caching { songs, .. }, SongsRefreshEvent::CacheWritten) => {
                RefreshView::Publishing { songs }
            },
            (RefreshView::Caching { songs, .. }, SongsRefreshEvent::CacheFailed(_)) => {
                RefreshView::Publishing { songs }
            },
            (RefreshView::Publishing { .. }, SongsRefreshEvent::Published) => RefreshView::Finished,
            (RefreshView::Publishing { .. }, SongsRefreshEvent::PublishFailed(_)) => {
                RefreshView::Finished
            },
            _ => self,
        }
    }

    /// The lines that `event` adds to the log.
    pub open spec fn lines(self, event: SongsRefreshEvent, cache_path: Seq<char>) -> Seq<Seq<char>> {
        match (self, event) {
            (RefreshView::Starting, SongsRefreshEvent::ClientFailed(reason)) => seq![
                "Failed to create HTTP client for songs refresh: "@ + reason@,
            ],
            (
                RefreshView::Fetching { attempt },
                SongsRefreshEvent::Fetched { songs, .. },
            ) => skipped_song_lines(songs@),
            (RefreshView::Fetching { attempt }, SongsRefreshEvent::FetchFailed(error)) => if attempt
                < SONGS_FETCH_RETRIES {
                seq![
                    "Online songs refresh attempt "@ + text::decimal(attempt) + "/"@
                        + text::decimal(SONGS_FETCH_RETRIES as int) + " failed: "@ + error.text(),
                ]
            } else {
                seq![
                    "Online songs refresh failed after "@ + text::decimal(
                        SONGS_FETCH_RETRIES as int,
                    ) + " attempts: "@ + error.text() + ". Keeping local dataset."@,
                ]
            },
            (RefreshView::Caching { songs, .. }, SongsRefreshEvent::CacheWritten) => seq![
                "Updated songs cache at "@ + cache_path,
            ],
            (RefreshView::Caching { songs, .. }, SongsRefreshEvent::CacheFailed(reason)) => seq![
                "Warning: failed to write songs cache "@ + cache_path + ": "@ + reason@,
            ],
            (RefreshView::Publishing { .. }, SongsRefreshEvent::Published) => seq![
                "Songs dataset refreshed from online source"@,
            ],
            (RefreshView::Publishing { .. }, SongsRefreshEvent::PublishFailed(reason)) => seq![
                "Failed to update shared songs dataset: "@ + reason@,
            ],
            _ => Seq::empty(),
        }
    }
}

impl SongsRefresh {
    /// The start of a refresh.
    pub fn start(log: &mut Journal) -> (r: Self)
        ensures
            r@ == RefreshView::Starting,
            r@.wf(),
            final(log)@ == old(log)@.push("Refreshing songs from URL "@ + SONGS_URL@),
    {
        log.record("Refreshing songs from URL ".to_owned().concat(SONGS_URL));
        SongsRefresh::Starting
    }

    /// One step of a refresh: what follows from the outcome of the stage's operation.
    pub fn refresh_songs_from_online(
        self,
        event: SongsRefreshEvent,
        cache_path: &str,
        log: &mut Journal,
    ) -> (r: Self)
        requires
            self@.wf(),
        ensures
            r@ == self@.after(event),
            r@.wf(),
            final(log)@ == old(log)@ + self@.lines(event, cache_path@),
    {
        let ghost added = self@.lines(event, cache_path@);
        let r = match (self, event) {
            (SongsRefresh::Starting, SongsRefreshEvent::ClientCreated) => SongsRefresh::Fetching {
                attempt: 1,
            },
            (SongsRefresh::Starting, SongsRefreshEvent::ClientFailed(reason)) => {
                log.record(
                    "Failed to create HTTP client for songs refresh: ".to_owned().concat(
                        reason.as_str(),
                    ),
                );
                SongsRefresh::Finished
            },
            (SongsRefresh::Fetching { .. }, SongsRefreshEvent::Fetched { songs, body }) => {
                SongsRefresh::Caching { songs: songs_to_map(songs, log), body }
            },
            (SongsRefresh::Fetching { attempt }, SongsRefreshEvent::FetchFailed(error)) => {
                if attempt < SONGS_FETCH_RETRIES {
                    let mut line: String = "Online songs refresh attempt ".to_owned();
                    text::append_number(&mut line, attempt as u64, 10, 0);
                    line.append("/");
                    text::append_number(&mut line, SONGS_FETCH_RETRIES as u64, 10, 0);
                    line.append(" failed: ");
                    line.append(error.message().as_str());
                    log.record(line);
                    SongsRefresh::Waiting { attempt }
                } else {
                    let mut line: String = "Online songs refresh failed after ".to_owned();
                    text::append_number(&mut line, SONGS_FETCH_RETRIES as u64, 10, 0);
                    line.append(" attempts: ");
                    line.append(error.message().as_str());
                    line.append(". Keeping local dataset.");
                    log.record(line);
                    SongsRefresh::Finished
                }
            },
            (SongsRefresh::Waiting { attempt }, SongsRefreshEvent::Waited) => {
                SongsRefresh::Fetching { attempt: attempt + 1 }
            },
            (SongsRefresh::Caching { songs, .. }, SongsRefreshEvent::CacheWritten) => {
                log.record("Updated songs cache at ".to_owned().concat(cache_path));
                SongsRefresh::Publishing { songs }
            },
            (SongsRefresh::Caching { songs, .. }, SongsRefreshEvent::CacheFailed(reason)) => {
                log.record(
                    "Warning: failed to write songs cache ".to_owned().concat(cache_path).concat(
                        ": ",
                    ).concat(reason.as_str()),
                );
                SongsRefresh::Publishing { songs }
            },
            (SongsRefresh::Publishing { .. }, SongsRefreshEvent::Published) => {
                log.record("Songs dataset refreshed from online source".to_owned());
                SongsRefresh::Finished
            },
            (SongsRefresh::Publishing { .. }, SongsRefreshEvent::PublishFailed(reason)) => {
                log.record(
                    "Failed to update shared songs dataset: ".to_owned().concat(reason.as_str()),
                );
                SongsRefresh::Finished
            },
            (stage, _) => stage,
        };
        assert(log@ =~= old(log)@ + added);
        r
    }
}

/// The stage after all of `events`, from `stage` on.
pub open spec fn refresh_run(stage: RefreshView, events: Seq<SongsRefreshEvent>) -> RefreshView
    decreases events.len(),
{
    if events.len() == 0 {
        stage
    } else {
        refresh_run(stage, events.drop_last()).after(events.last())
    }
}

/// Whether `events` report a dataset whose table is `songs`.
pub open spec fn fetched_table(events: Seq<SongsRefreshEvent>, songs: Map<i32, Song>) -> bool {
    exists|i: int|
        #![trigger events[i]]
        0 <= i < events.len() && events[i] is Fetched && songs_by_number(
            events[i]->Fetched_songs@,
        ) == songs
}

/// Whether `events` report a dataset whose table is `songs` and that was fetched as `body`.
pub open spec fn fetched_dataset(
    events: Seq<SongsRefreshEvent>,
    songs: Map<i32, Song>,
    body: Seq<u8>,
) -> bool {
    exists|i: int|
        #![trigger events[i]]
        {
            &&& 0 <= i < events.len()
            &&& events[i] is Fetched
            &&& songs_by_number(events[i]->Fetched_songs@) == songs
            &&& events[i]->Fetched_body@ == body
        }
}

/// Whether the song at `i` has this number.
pub open spec fn has_number(songs: Seq<Song>, i: int, number: i32) -> bool {
    0 <= i < songs.len() && text::i32_in_text(songs[i].id@) == Some(number)
}

/// Whether the song at `i` is the last one with this number.
pub open spec fn is_last_with_number(songs: Seq<Song>, i: int, number: i32) -> bool {
    has_number(songs, i, number) && forall|j: int|
        i < j < songs.len() ==> !#[trigger] has_number(songs, j, number)
}

proof fn lemma_numbers_in_the_table(songs: Seq<Song>, number: i32)
    ensures
        songs_by_number(songs).contains_key(number) <==> exists|i: int|
            #[trigger] has_number(songs, i, number),
    decreases songs.len(),
{
    if songs.len() > 0 {
        let earlier = songs.drop_last();
        let last = songs.len() - 1;
        lemma_numbers_in_the_table(earlier, number);
        assert forall|i: int| i != last implies #[trigger] has_number(songs, i, number)
            == has_number(earlier, i, number) by {
            if 0 <= i < last {
                assert(songs[i] == earlier[i]);
            }
        }
        if songs_by_number(earlier).contains_key(number) {
            let i = choose|i: int| #[trigger] has_number(earlier, i, number);
            assert(has_number(songs, i, number));
        }
        if has_number(songs, last, number) {
            assert(songs_by_number(songs).contains_key(number));
        } else if exists|i: int| #[trigger] has_number(songs, i, number) {
            let i = choose|i: int| #[trigger] has_number(songs, i, number);
            assert(has_number(earlier, i, number));
        }
    }
}

proof fn lemma_last_song_in_the_table(songs: Seq<Song>, number: i32, i: int)
    requires
        is_last_with_number(songs, i, number),
    ensures
        songs_by_number(songs)[number] == songs[i],
    decreases songs.len(),
{
    let earlier = songs.drop_last();
    let last = songs.len() - 1;
    if i < last {
        assert(!has_number(songs, last, number));
        assert(songs[i] == earlier[i]);
        assert(has_number(earlier, i, number));
        assert forall|j: int| i < j < earlier.len() implies !#[trigger] has_number(
            earlier,
            j,
            number,
        ) by {
            assert(songs[j] == earlier[j]);
            assert(!has_number(songs, j, number));
        }
        lemma_last_song_in_the_table(earlier, number, i);
    }
}

/// A number is in the table exactly if some song has it, and it stands for the last such song.
pub proof fn law_last_song_with_a_number_counts(songs: Seq<Song>, number: i32)
    ensures
        songs_by_number(songs).contains_key(number) <==> exists|i: int|
            #[trigger] has_number(songs, i, number),
        forall|i: int| #[trigger]
            is_last_with_number(songs, i, number) ==> songs_by_number(songs)[number] == songs[i],
{
    lemma_numbers_in_the_table(songs, number);
    assert forall|i: int| #[trigger] is_last_with_number(songs, i, number) implies songs_by_number(
        songs,
    )[number] == songs[i] by {
        lemma_last_song_in_the_table(songs, number, i);
    }
}

/// A refresh tries at most the set number of times, whatever comes back.
pub proof fn law_refresh_tries_are_bounded(events: Seq<SongsRefreshEvent>)
    ensures
        refresh_run(RefreshView::Starting, events).wf(),
    decreases events.len(),
{
    if events.len() > 0 {
        law_refresh_tries_are_bounded(events.drop_last());
    }
}

proof fn lemma_cached_datasets_were_fetched(
    events: Seq<SongsRefreshEvent>,
    songs: Map<i32, Song>,
    body: Seq<u8>,
)
    requires
        refresh_run(RefreshView::Starting, events) == (RefreshView::Caching { songs, body }),
    ensures
        fetched_dataset(events, songs, body),
    decreases events.len(),
{
    if events.len() > 0 {
        let before = refresh_run(RefreshView::Starting, events.drop_last());
        let n = events.len() - 1;
        if events[n] is Fetched && before is Fetching {
            assert(songs_by_number(events[n]->Fetched_songs@) == songs);
        } else {
            lemma_cached_datasets_were_fetched(events.drop_last(), songs, body);
            let i = choose|i: int|
                #![trigger events.drop_last()[i]]
                {
                    &&& 0 <= i < n
                    &&& events.drop_last()[i] is Fetched
                    &&& songs_by_number(events.drop_last()[i]->Fetched_songs@) == songs
                    &&& events.drop_last()[i]->Fetched_body@ == body
                };
            assert(events[i] == events.drop_last()[i]);
        }
    }
}

proof fn lemma_published_tables_were_fetched(
    events: Seq<SongsRefreshEvent>,
    songs: Map<i32, Song>,
)
    requires
        refresh_run(RefreshView::Starting, events) == (RefreshView::Publishing { songs }),
    ensures
        fetched_table(events, songs),
    decreases events.len(),
{
    if events.len() > 0 {
        let earlier = events.drop_last();
        let before = refresh_run(RefreshView::Starting, earlier);
        if let RefreshView::Caching { body, .. } = before {
            lemma_cached_datasets_were_fetched(earlier, songs, body);
        } else {
            lemma_published_tables_were_fetched(earlier, songs);
        }
        let i = choose|i: int|
            #![trigger earlier[i]]
            0 <= i < earlier.len() && earlier[i] is Fetched && songs_by_number(
                earlier[i]->Fetched_songs@,
            ) == songs;
        assert(events[i] == earlier[i]);
    }
}

/// The table in use is replaced only by the table of a dataset that was fetched, and the cache gets
/// exactly the bytes that such a dataset was fetched as: a refresh in which every fetch fails keeps
/// the local dataset.
pub proof fn law_only_a_fetched_dataset_is_published(events: Seq<SongsRefreshEvent>)
    ensures
        refresh_run(RefreshView::Starting, events) matches RefreshView::Caching { songs, body }
            ==> fetched_dataset(events, songs, body),
        refresh_run(RefreshView::Starting, events) matches RefreshView::Publishing { songs }
            ==> fetched_table(events, songs),
{
    match refresh_run(RefreshView::Starting, events) {
        RefreshView::Caching { songs, body } => {
            lemma_cached_datasets_were_fetched(events, songs, body);
        },
        RefreshView::Publishing { songs } => {
            lemma_published_tables_were_fetched(events, songs);
        },
        _ => {},
    }
}

/// A dataset that was fetched goes to the cache as the bytes that it was fetched as. Its table is
/// published, whether or not the cache could be written, and the refresh ends there. The table is the
/// one that the same records give when they are loaded from the cache.
pub proof fn law_a_fetched_dataset_is_published(
    attempt: int,
    songs: Vec<Song>,
    body: Vec<u8>,
    cached: SongsRefreshEvent,
    published: SongsRefreshEvent,
)
    requires
        cached is CacheWritten || cached is CacheFailed,
        published is Published || published is PublishFailed,
    ensures
        ({
            let fetched = (RefreshView::Fetching { attempt }).after(
                SongsRefreshEvent::Fetched { songs, body },
            );
            &&& fetched == (RefreshView::Caching {
                songs: songs_by_number(songs@),
                body: body@,
            })
            &&& fetched.after(cached) == (RefreshView::Publishing {
                songs: songs_by_number(songs@),
            })
            &&& fetched.after(cached).after(published) is Finished
        }),
{
}

/// The events of a refresh in which one try after the other fails with these errors.
pub open spec fn failing_tries(errors: Seq<SongsRefreshError>) -> Seq<SongsRefreshEvent>
    decreases errors.len(),
{
    if errors.len() == 0 {
        seq![SongsRefreshEvent::ClientCreated]
    } else if errors.len() == 1 {
        seq![SongsRefreshEvent::ClientCreated, SongsRefreshEvent::FetchFailed(errors.last())]
    } else {
        failing_tries(errors.drop_last()).push(SongsRefreshEvent::Waited).push(
            SongsRefreshEvent::FetchFailed(errors.last()),
        )
    }
}

/// After a failed try the refresh waits and tries again, until the last try has failed: then it
/// ends.
pub proof fn law_refresh_gives_up_after_the_last_try(errors: Seq<SongsRefreshError>)
    requires
        1 <= errors.len() <= SONGS_FETCH_RETRIES,
    ensures
        refresh_run(RefreshView::Starting, failing_tries(errors)) == if errors.len()
            < SONGS_FETCH_RETRIES {
            RefreshView::Waiting { attempt: errors.len() as int }
        } else {
            RefreshView::Finished
        },
    decreases errors.len(),
{
    let events = failing_tries(errors);
    let but_one = events.drop_last();
    if errors.len() == 1 {
        assert(but_one =~= seq![SongsRefreshEvent::ClientCreated]);
        assert(but_one.drop_last() =~= Seq::<SongsRefreshEvent>::empty());
        assert(refresh_run(RefreshView::Starting, but_one.drop_last()) == RefreshView::Starting);
    } else {
        law_refresh_gives_up_after_the_last_try(errors.drop_last());
        assert(but_one.drop_last() =~= failing_tries(errors.drop_last()));
        assert(but_one.last() == SongsRefreshEvent::Waited);
    }
    assert(refresh_run(RefreshView::Starting, but_one) == RefreshView::Fetching {
        attempt: errors.len() as int,
    });
}

/// Exactly one byte order mark in front is dropped: the bytes behind it stay as they are, and bytes
/// without one in front do too.
pub proof fn law_one_byte_order_mark_is_dropped(bytes: Seq<u8>)
    ensures
        without_byte_order_mark(seq![0xEFu8, 0xBBu8, 0xBFu8] + bytes) == bytes,
        bytes.len() < 3 || bytes[0] != 0xEF || bytes[1] != 0xBB || bytes[2] != 0xBF
            ==> without_byte_order_mark(bytes) == bytes,
{
    let marked = seq![0xEFu8, 0xBBu8, 0xBFu8] + bytes;
    assert(marked.subrange(0, 3) =~= byte_order_mark());
    assert(marked.skip(3) =~= bytes);
    if byte_order_mark().is_prefix_of(bytes) {
        assert(bytes.subrange(0, 3)[0] == byte_order_mark()[0]);
        assert(bytes.subrange(0, 3)[1] == byte_order_mark()[1]);
        assert(bytes.subrange(0, 3)[2] == byte_order_mark()[2]);
    }
}

/// Each song whose identifier is no number is put in the log with its identifier, in order, and no
/// other song is.
pub proof fn law_skipped_songs_are_logged(songs: Seq<Song>, song: Song)
    ensures
        skipped_song_lines(Seq::empty()).len() == 0,
        text::i32_in_text(song.id@) is Some ==> skipped_song_lines(songs.push(song))
            == skipped_song_lines(songs),
        text::i32_in_text(song.id@) is None ==> skipped_song_lines(songs.push(song))
            == skipped_song_lines(songs).push("Skipping song with non-numeric ID: "@ + song.id@),
{
    assert(songs.push(song).drop_last() =~= songs);
}

/// The dataset is fetched from its repository, five times at most with half a second in between, and
/// is kept in its own file.
pub proof fn law_the_dataset_has_its_place()
    ensures
        SONGS_URL@
            == "https://raw.githubusercontent.com/beer-psi/chuni-penguin/refs/heads/trunk/chuni_penguin/database/seeds/songs.json"@,
        SONGS_CACHE_FILE_NAME@ == "chunithm_songs_cache.json"@,
        SONGS_FETCH_RETRIES == 5,
        SONGS_FETCH_RETRY_DELAY_MILLIS == 500,
{
}

/// An error says what was tried, and ends with the reason that was given.
pub proof fn law_errors_give_their_reason(reason: String)
    ensures
        SongsCacheLoadError::Read(reason).text() == "failed to read songs cache: "@ + reason@,
        SongsCacheLoadError::Parse(reason).text() == "failed to parse songs cache JSON: "@
            + reason@,
        SongsRefreshError::Request(reason).text() == "request failed: "@ + reason@,
        SongsRefreshError::ReadBody(reason).text() == "failed to read songs response body: "@
            + reason@,
        SongsRefreshError::Parse(reason).text() == "failed to parse songs JSON: "@ + reason@,
{
}

/// The line on a loaded cache gives the number of songs and the file.
pub proof fn law_the_loaded_cache_is_logged(count: nat, path: Seq<char>)
    ensures
        cache_loaded_line(count, path) == "Loaded "@ + text::digits(count, 10)
            + " songs from local cache "@ + path,
{
}

/// Whether `event` is an outcome of the operation that the stage waits for.
pub open spec fn answers(event: SongsRefreshEvent, stage: RefreshView) -> bool {
    match stage {
        RefreshView::Starting => event is ClientCreated || event is ClientFailed,
        RefreshView::Fetching { .. } => event is Fetched || event is FetchFailed,
        RefreshView::Waiting { .. } => event is Waited,
        RefreshView::Caching { .. } => event is CacheWritten || event is CacheFailed,
        RefreshView::Publishing { .. } => event is Published || event is PublishFailed,
        RefreshView::Finished => false,
    }
}

/// How much of a refresh is left at most.
pub open spec fn refresh_left(stage: RefreshView) -> int {
    match stage {
        RefreshView::Starting => 13,
        RefreshView::Fetching { attempt } => 2 + 2 * (5 - attempt) + 1,
        RefreshView::Waiting { attempt } => 2 + 2 * (5 - attempt),
        RefreshView::Caching { .. } => 2,
        RefreshView::Publishing { .. } => 1,
        RefreshView::Finished => 0,
    }
}

/// Every outcome of the operation that is waited for brings the refresh nearer to its end; any other
/// event changes nothing and puts nothing in the log.
pub proof fn law_every_outcome_brings_the_refresh_forward(
    stage: RefreshView,
    event: SongsRefreshEvent,
    cache_path: Seq<char>,
)
    requires
        stage.wf(),
    ensures
        answers(event, stage) ==> 0 <= refresh_left(stage.after(event)) < refresh_left(stage),
        !answers(event, stage) ==> stage.after(event) == stage && stage.lines(
            event,
            cache_path,
        ).len() == 0,
        !(stage is Finished) ==> refresh_left(stage) > 0,
{
}

/// A refresh begins with the first try once there is a client, and ends at once without one; after a
/// pause comes the next try.
pub proof fn law_tries_are_counted_from_one(attempt: int, reason: String)
    ensures
        RefreshView::Starting.after(SongsRefreshEvent::ClientCreated) == (RefreshView::Fetching {
            attempt: 1,
        }),
        RefreshView::Starting.after(SongsRefreshEvent::ClientFailed(reason)) is Finished,
        (RefreshView::Waiting { attempt }).after(SongsRefreshEvent::Waited)
            == (RefreshView::Fetching { attempt: attempt + 1 }),
{
}

/// The log follows the refresh: it gives the reason for each failure, with the number of the try, and
/// says what became of the cache and of the table in use.
pub proof fn law_the_refresh_is_logged(
    attempt: int,
    songs: Map<i32, Song>,
    body: Seq<u8>,
    reason: String,
    error: SongsRefreshError,
    fetched: Vec<Song>,
    fetched_body: Vec<u8>,
    cache_path: Seq<char>,
)
    requires
        1 <= attempt <= 5,
    ensures
        RefreshView::Starting.lines(SongsRefreshEvent::ClientFailed(reason), cache_path) == seq![
            "Failed to create HTTP client for songs refresh: "@ + reason@,
        ],
        attempt < 5 ==> (RefreshView::Fetching { attempt }).lines(
            SongsRefreshEvent::FetchFailed(error),
            cache_path,
        ) == seq![
            "Online songs refresh attempt "@ + text::decimal(attempt) + "/"@ + text::decimal(5)
                + " failed: "@ + error.text(),
        ],
        attempt == 5 ==> (RefreshView::Fetching { attempt }).lines(
            SongsRefreshEvent::FetchFailed(error),
            cache_path,
        ) == seq![
            "Online songs refresh failed after "@ + text::decimal(5) + " attempts: "@ + error.text()
                + ". Keeping local dataset."@,
        ],
        (RefreshView::Fetching { attempt }).lines(
            SongsRefreshEvent::Fetched { songs: fetched, body: fetched_body },
            cache_path,
        ) == skipped_song_lines(fetched@),
        (RefreshView::Caching { songs, body }).lines(SongsRefreshEvent::CacheWritten, cache_path)
            == seq!["Updated songs cache at "@ + cache_path],
        (RefreshView::Caching { songs, body }).lines(
            SongsRefreshEvent::CacheFailed(reason),
            cache_path,
        ) == seq!["Warning: failed to write songs cache "@ + cache_path + ": "@ + reason@],
        (RefreshView::Publishing { songs }).lines(SongsRefreshEvent::Published, cache_path)
            == seq!["Songs dataset refreshed from online source"@],
        (RefreshView::Publishing { songs }).lines(
            SongsRefreshEvent::PublishFailed(reason),
            cache_path,
        ) == seq!["Failed to update shared songs dataset: "@ + reason@],
{
}

} // verus!
