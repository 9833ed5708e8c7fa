//! Track information: how it is read from what a media session reports, and how it changes the
//! player state.
use crate::api::{PlayerView, SharedPlayerState};
use crate::clock::ticks_to_ms;
use crate::letters::trimmed;
use crate::text::{has_char, same_text, split_text};
use crate::utils::convert_text;
use ferrous_opencc::OpenCC;
use vstd::prelude::*;

verus! {

/// The dash that parts artist and album in what Apple Music reports as the artist.
pub const APPLE_MUSIC_SEPARATOR: char = '\u{2014}';

/// What is known of a track.
pub struct TrackInfo {
    pub title: String,
    pub artist: String,
    pub album: String,
    pub duration_ms: u64,
}

/// The contents of a `TrackInfo`.
#[verifier::ext_equal]
pub struct TrackView {
    pub title: Seq<char>,
    pub artist: Seq<char>,
    pub album: Seq<char>,
    pub duration_ms: u64,
}

impl View for TrackInfo {
    type V = TrackView;

    open spec fn view(&self) -> TrackView {
        TrackView {
            title: self.title@,
            artist: self.artist@,
            album: self.album@,
            duration_ms: self.duration_ms,
        }
    }
}

/// What a media session reports of a track. A property that could not be read is missing.
pub struct RawMediaProperties {
    pub title: Option<String>,
    pub artist: Option<String>,
    pub album_title: Option<String>,
    /// The end of the timeline in units of 100 nanoseconds.
    pub end_time_ticks: Option<i64>,
}

/// Artist and album, where the pieces of an artist text read "artist - album" or
/// "artist - album - artist".
pub open spec fn merged_artist_and_album(pieces: Seq<Seq<char>>) -> Option<(Seq<char>, Seq<char>)> {
    if pieces.len() == 2 || (pieces.len() == 3 && pieces[0] == pieces[2]) {
        Some((pieces[0], pieces[1]))
    } else {
        None
    }
}

/// The pieces of an artist text, without the white space around them.
pub open spec fn artist_pieces(artist: Seq<char>) -> Seq<Seq<char>> {
    crate::text::split(artist, APPLE_MUSIC_SEPARATOR).map_values(
        |piece: Seq<char>| crate::letters::trim(piece),
    )
}

/// The track with the album split off its artist, where the artist holds both.
pub open spec fn apple_music_parsed(info: TrackView) -> TrackView {
    match merged_artist_and_album(artist_pieces(info.artist)) {
        Some((artist, album)) => TrackView { artist, album, ..info },
        None => info,
    }
}

/// Whether a title only says that the player is connecting.
pub open spec fn is_placeholder_title(title: Seq<char>) -> bool {
    title == "正在连接…"@ || title == "Connecting…"@
}

/// The track that converted properties describe; none for a placeholder title. The album is
/// split off the artist where that is asked for and no album is reported.
pub open spec fn track_from(
    title: Seq<char>,
    artist: Seq<char>,
    album: Seq<char>,
    end_time_ticks: Option<i64>,
    split_artist: bool,
) -> Option<TrackView> {
    if is_placeholder_title(title) {
        None
    } else {
        let plain = TrackView { title, artist, album, duration_ms: 0 };
        let parsed = if split_artist && album.len() == 0 {
            apple_music_parsed(plain)
        } else {
            plain
        };
        Some(
            match end_time_ticks {
                Some(ticks) => TrackView {
                    duration_ms: crate::clock::millis_of_ticks(ticks as int) as u64,
                    ..parsed
                },
                None => parsed,
            },
        )
    }
}

/// A reported property after text conversion; empty where it is missing.
pub open spec fn converted_property(property: Option<String>, converter: Option<OpenCC>) -> Seq<
    char,
> {
    match property {
        Some(text) => crate::utils::text_after_conversion(text@, converter),
        None => Seq::empty(),
    }
}

/// The track that reported properties describe.
pub open spec fn parsed_properties(
    raw: RawMediaProperties,
    converter: Option<OpenCC>,
    split_artist: bool,
) -> Option<TrackView> {
    track_from(
        converted_property(raw.title, converter),
        converted_property(raw.artist, converter),
        converted_property(raw.album_title, converter),
        raw.end_time_ticks,
        split_artist,
    )
}

/// Finds artist and album in the trimmed pieces of an artist text.
pub fn find_merged_artist_and_album<'a>(pieces: &Vec<&'a str>) -> (found: Option<
    (&'a str, &'a str),
>)
    ensures
        match found {
            Some(pair) => merged_artist_and_album(pieces@.map_values(|p: &'a str| p@)) == Some(
                (pair.0@, pair.1@),
            ),
            None => merged_artist_and_album(pieces@.map_values(|p: &'a str| p@)) is None,
        },
{
    if pieces.len() == 2 {
        return Some((pieces[0], pieces[1]));
    }
    if pieces.len() == 3 && same_text(pieces[0], pieces[2]) {
        return Some((pieces[0], pieces[1]));
    }
    None
}

/// Splits the album off the artist, where Apple Music has merged both.
pub fn try_parse_apple_music_format(info: TrackInfo) -> (parsed: TrackInfo)
    ensures
        parsed@ == apple_music_parsed(info@),
{
    if !has_char(info.artist.as_str(), APPLE_MUSIC_SEPARATOR) {
        proof {
            crate::text::lemma_split_pieces(info.artist@, APPLE_MUSIC_SEPARATOR);
        }
        return info;
    }
    let pieces: Vec<&str> = split_text(info.artist.as_str(), APPLE_MUSIC_SEPARATOR);
    let mut parts: Vec<&str> = Vec::new();
    for i in 0..pieces.len()
        invariant
            parts@.len() == i,
            forall|j: int|
                0 <= j < i ==> (#[trigger] parts@[j])@ == crate::letters::trim(pieces@[j]@),
    {
        let part: &str = trimmed(pieces[i]);
        parts.push(part);
    }
    assert(parts@.map_values(|p: &str| p@) =~= artist_pieces(info.artist@)) by {
        let raw = pieces@.map_values(|p: &str| p@);
        assert forall|j: int| 0 <= j < parts@.len() implies parts@.map_values(|p: &str| p@)[j]
            == artist_pieces(info.artist@)[j] by {
            assert(raw[j] == pieces@[j]@);
        }
    }
    match find_merged_artist_and_album(&parts) {
        Some((artist, album)) => {
            let artist: String = artist.to_owned();
            let album: String = album.to_owned();
            TrackInfo { title: info.title, artist, album, duration_ms: info.duration_ms }
        },
        None => info,
    }
}

/// Reads a track from its converted properties.
pub fn track_from_converted(
    title: String,
    artist: String,
    album: String,
    end_time_ticks: Option<i64>,
    split_artist: bool,
) -> (track: Option<TrackInfo>)
    ensures
        match track {
            Some(info) => track_from(title@, artist@, album@, end_time_ticks, split_artist) == Some(
                info@,
            ),
            None => track_from(title@, artist@, album@, end_time_ticks, split_artist) is None,
        },
{
    if same_text(title.as_str(), "正在连接…") || same_text(title.as_str(), "Connecting…") {
        return None;
    }
    let album_missing: bool = album.as_str().is_empty();
    let mut info = TrackInfo { title, artist, album, duration_ms: 0 };
    if split_artist && album_missing {
        info = try_parse_apple_music_format(info);
    }
    if let Some(ticks) = end_time_ticks {
        info.duration_ms = ticks_to_ms(ticks);
    }
    Some(info)
}

/// Converts a reported property; empty where it is missing.
fn convert_property(property: &Option<String>, converter: Option<&OpenCC>) -> (converted: String)
    ensures
        converted@ == converted_property(
            *property,
            match converter {
                Some(c) => Some(*c),
                None => None,
            },
        ),
{
    match property {
        Some(text) => convert_text(text.as_str(), converter),
        None => String::new(),
    }
}

/// Converts reported properties and reads the track from them.
pub fn parse_and_convert_properties(
    raw: &RawMediaProperties,
    converter: Option<&OpenCC>,
    split_artist: bool,
) -> (track: Option<TrackInfo>)
    ensures
        ({
            let parsed = parsed_properties(
                *raw,
                match converter {
                    Some(c) => Some(*c),
                    None => None,
                },
                split_artist,
            );
            match track {
                Some(info) => parsed == Some(info@),
                None => parsed is None,
            }
        }),
{
    let title: String = convert_property(&raw.title, converter);
    let artist: String = convert_property(&raw.artist, converter);
    let album: String = convert_property(&raw.album_title, converter);
    track_from_converted(title, artist, album, raw.end_time_ticks, split_artist)
}

/// Whether a track is the first one that the player shows.
pub open spec fn is_initial_load(player: PlayerView, track: TrackView) -> bool {
    player.title.len() == 0 && track.title.len() > 0
}

/// Whether a track replaces another one.
pub open spec fn is_track_change(player: PlayerView, track: TrackView) -> bool {
    player.title.len() > 0 && (player.title != track.title || player.artist != track.artist)
}

/// Whether a track is new to the player.
pub open spec fn is_new_track(player: PlayerView, track: TrackView) -> bool {
    is_initial_load(player, track) || is_track_change(player, track)
}

/// The player state once it shows a track. A new track drops the cover art and waits for its
/// first update; a replaced track also drops position and duration.
pub open spec fn player_showing(player: PlayerView, track: TrackView) -> PlayerView {
    let base = if is_new_track(player, track) {
        PlayerView {
            cover_data: None,
            cover_data_hash: None,
            is_waiting_for_initial_update: true,
            ..player
        }
    } else {
        player
    };
    let named = PlayerView {
        title: track.title,
        artist: track.artist,
        album: track.album,
        ..base
    };
    if is_initial_load(player, track) && track.duration_ms > 0 {
        PlayerView { song_duration_ms: track.duration_ms, ..named }
    } else if is_track_change(player, track) {
        PlayerView {
            last_known_position_ms: 0,
            last_known_position_report_time: None,
            song_duration_ms: 0,
            ..named
        }
    } else {
        named
    }
}

/// Makes the player show a track. Returns whether that track is new.
pub fn show_track(player: &mut SharedPlayerState, track: &TrackInfo) -> (is_new: bool)
    ensures
        is_new == is_new_track(old(player)@, track@),
        final(player)@ == player_showing(old(player)@, track@),
{
    let untitled: bool = player.title.as_str().is_empty();
    let initial: bool = untitled && !track.title.as_str().is_empty();
    let changed: bool = !untitled && (!same_text(player.title.as_str(), track.title.as_str())
        || !same_text(player.artist.as_str(), track.artist.as_str()));
    let is_new: bool = initial || changed;
    if is_new {
        player.cover_data = None;
        player.cover_data_hash = None;
        player.is_waiting_for_initial_update = true;
    }
    player.title = track.title.clone();
    player.artist = track.artist.clone();
    player.album = track.album.clone();
    if initial {
        if track.duration_ms > 0 {
            player.song_duration_ms = track.duration_ms;
        }
    } else if changed {
        player.last_known_position_ms = 0;
        player.last_known_position_report_time = None;
        player.song_duration_ms = 0;
    }
    is_new
}

/// A track without the dash in its artist is not split.
pub proof fn law_plain_artist_is_not_split(info: TrackView)
    requires
        !info.artist.contains(APPLE_MUSIC_SEPARATOR),
    ensures
        apple_music_parsed(info) == info,
{
    crate::text::lemma_split_pieces(info.artist, APPLE_MUSIC_SEPARATOR);
}

/// Splitting never touches the title or the duration.
pub proof fn law_split_keeps_title_and_duration(info: TrackView)
    ensures
        apple_music_parsed(info).title == info.title,
        apple_music_parsed(info).duration_ms == info.duration_ms,
{
}

/// Showing a track that the player already shows is no new track, and once shown a titled track
/// is never new again.
pub proof fn law_shown_track_is_not_new(player: PlayerView, track: TrackView)
    requires
        track.title.len() > 0,
    ensures
        !is_new_track(player_showing(player, track), track),
        player_showing(player_showing(player, track), track) == player_showing(player, track),
{
}

/// No cover art survives a change of the track, and nothing else drops it.
pub proof fn law_cover_belongs_to_track(player: PlayerView, track: TrackView)
    ensures
        is_new_track(player, track) ==> player_showing(player, track).cover_data is None
            && player_showing(player, track).cover_data_hash is None,
        !is_new_track(player, track) ==> player_showing(player, track).cover_data
            == player.cover_data && player_showing(player, track).cover_data_hash
            == player.cover_data_hash,
{
}

/// An artist text of two parts with one dash between is read as artist and album, without the
/// white space around them; one that repeats the artist behind a second dash is read the same
/// way, and any other with two dashes stays as it is.
pub proof fn law_dash_parts_artist_and_album(
    info: TrackView,
    artist: Seq<char>,
    album: Seq<char>,
    third: Seq<char>,
)
    requires
        !artist.contains('\u{2014}'),
        !album.contains('\u{2014}'),
        !third.contains('\u{2014}'),
    ensures
        info.artist == artist.push('\u{2014}') + album ==> {
            let parsed = apple_music_parsed(info);
            parsed.artist == crate::letters::trim(artist) && parsed.album == crate::letters::trim(
                album,
            ) && parsed.title == info.title && parsed.duration_ms == info.duration_ms
        },
        info.artist == artist.push('\u{2014}') + (album.push('\u{2014}') + third) ==> {
            let parsed = apple_music_parsed(info);
            &&& crate::letters::trim(artist) == crate::letters::trim(third) ==> parsed.artist
                == crate::letters::trim(artist) && parsed.album == crate::letters::trim(album)
                && parsed.title == info.title && parsed.duration_ms == info.duration_ms
            &&& crate::letters::trim(artist) != crate::letters::trim(third) ==> parsed == info
        },
{
    let dash = '\u{2014}';
    lemma_undivided(album, dash);
    lemma_undivided(third, dash);
    crate::text::law_split_takes_first_piece(artist, album, dash);
    crate::text::law_split_takes_first_piece(album, third, dash);
    crate::text::law_split_takes_first_piece(artist, album.push(dash) + third, dash);
    let two = seq![artist] + seq![album];
    assert(crate::text::split(artist.push(dash) + album, dash) =~= two);
    let three = seq![artist] + (seq![album] + seq![third]);
    assert(crate::text::split(artist.push(dash) + (album.push(dash) + third), dash) =~= three);
    assert(two[0] == artist && two[1] == album);
    assert(three[0] == artist && three[1] == album && three[2] == third);
}

/// A text without the separator is one piece.
proof fn lemma_undivided(s: Seq<char>, c: char)
    requires
        !s.contains(c),
    ensures
        crate::text::split(s, c) == seq![s],
{
    crate::text::lemma_split_pieces(s, c);
}

/// An artist text with three dashes or more stays as it is.
pub proof fn law_many_dashes_part_nothing(
    info: TrackView,
    a: Seq<char>,
    b: Seq<char>,
    c: Seq<char>,
    rest: Seq<char>,
)
    requires
        !a.contains('\u{2014}'),
        !b.contains('\u{2014}'),
        !c.contains('\u{2014}'),
        info.artist == a.push('\u{2014}') + (b.push('\u{2014}') + (c.push('\u{2014}') + rest)),
    ensures
        apple_music_parsed(info) == info,
{
    let dash = '\u{2014}';
    crate::text::law_split_takes_first_piece(a, b.push(dash) + (c.push(dash) + rest), dash);
    crate::text::law_split_takes_first_piece(b, c.push(dash) + rest, dash);
    crate::text::law_split_takes_first_piece(c, rest, dash);
    assert(crate::text::split(rest, dash).len() >= 1);
    assert(artist_pieces(info.artist).len() == crate::text::split(info.artist, dash).len());
    assert(crate::text::split(info.artist, dash).len() >= 4);
}

/// A title that only says that the player is connecting describes no track; every other title
/// describes one, and stays as it is.
pub proof fn law_placeholder_is_no_track(
    title: Seq<char>,
    artist: Seq<char>,
    album: Seq<char>,
    end_time_ticks: Option<i64>,
    split_artist: bool,
)
    ensures
        track_from(title, artist, album, end_time_ticks, split_artist) is None <==> title
            == "正在连接…"@ || title == "Connecting…"@,
        track_from(title, artist, album, end_time_ticks, split_artist) matches Some(track) ==> {
            &&& track.title == title
            &&& !split_artist || album.len() > 0 ==> track.artist == artist && track.album == album
            &&& end_time_ticks is None ==> track.duration_ms == 0
            &&& end_time_ticks matches Some(t) ==> t >= 0 ==> track.duration_ms * 10000 <= t
                < track.duration_ms * 10000 + 10000
        },
{
}

/// Where the album is missing and splitting is asked for, artist and album are read from a merged
/// artist text.
pub proof fn law_merged_artist_is_split_on_demand(
    title: Seq<char>,
    artist: Seq<char>,
    album: Seq<char>,
    end_time_ticks: Option<i64>,
)
    requires
        title != "正在连接…"@ && title != "Connecting…"@,
        !artist.contains('\u{2014}'),
        !album.contains('\u{2014}'),
    ensures
        ({
            let merged = artist.push('\u{2014}') + album;
            let none = Seq::<char>::empty();
            &&& track_from(title, merged, none, end_time_ticks, true) matches Some(track)
                && track.artist == crate::letters::trim(artist) && track.album
                == crate::letters::trim(album) && track.title == title
            &&& track_from(title, merged, none, end_time_ticks, false) matches Some(track)
                && track.artist == merged && track.album.len() == 0
        }),
{
    let merged = artist.push('\u{2014}') + album;
    let plain = TrackView { title, artist: merged, album: Seq::empty(), duration_ms: 0 };
    law_dash_parts_artist_and_album(plain, artist, album, album);
}

/// Every reported property is converted before anything is read from it: title, artist and album
/// each by itself, and one that is missing counts as empty.
pub proof fn law_properties_are_converted(
    raw: RawMediaProperties,
    converter: Option<OpenCC>,
    title: Seq<char>,
    artist: Seq<char>,
    album: Seq<char>,
)
    requires
        match raw.title {
            Some(t) => title == crate::utils::text_after_conversion(t@, converter),
            None => title.len() == 0,
        },
        match raw.artist {
            Some(t) => artist == crate::utils::text_after_conversion(t@, converter),
            None => artist.len() == 0,
        },
        match raw.album_title {
            Some(t) => album == crate::utils::text_after_conversion(t@, converter),
            None => album.len() == 0,
        },
    ensures
        parsed_properties(raw, converter, false) matches Some(track) ==> track.title == title
            && track.artist == artist && track.album == album,
        parsed_properties(raw, converter, false) is None <==> title == "正在连接…"@ || title
            == "Connecting…"@,
        album.len() > 0 ==> parsed_properties(raw, converter, true) == parsed_properties(
            raw,
            converter,
            false,
        ),
{
    assert(title =~= converted_property(raw.title, converter));
    assert(artist =~= converted_property(raw.artist, converter));
    assert(album =~= converted_property(raw.album_title, converter));
}

/// A track is new where the player shows none and the track has a title, or where the player shows
/// one with another title or artist; the album does not count.
pub proof fn law_new_track_is_told_by_title_and_artist(player: PlayerView, track: TrackView)
    ensures
        player.title.len() == 0 ==> (is_new_track(player, track) <==> track.title.len() > 0),
        player.title.len() > 0 ==> (is_new_track(player, track) <==> player.title != track.title
            || player.artist != track.artist),
{
}

/// Whatever track is shown, the player has its title, artist and album, and playback status,
/// modes, controls and offsets stay. A new track starts without cover art and waits for its first
/// update; a replaced one also starts without position and duration, and a first one takes the
/// duration over where there is one.
pub proof fn law_shown_track_is_named(player: PlayerView, track: TrackView)
    ensures
        ({
            let shown = player_showing(player, track);
            let first = player.title.len() == 0 && track.title.len() > 0;
            let other = player.title.len() > 0 && (player.title != track.title || player.artist
                != track.artist);
            &&& shown.title == track.title && shown.artist == track.artist
            &&& shown.album == track.album
            &&& shown.playback_status == player.playback_status
            &&& shown.is_shuffle_active == player.is_shuffle_active
            &&& shown.repeat_mode == player.repeat_mode && shown.controls == player.controls
            &&& shown.position_offset_ms == player.position_offset_ms
            &&& shown.apple_music_optimization_offset_ms
                == player.apple_music_optimization_offset_ms
            &&& first || other ==> shown.cover_data is None && shown.cover_data_hash is None
                && shown.is_waiting_for_initial_update
            &&& !first && !other ==> shown.cover_data == player.cover_data && shown.cover_data_hash
                == player.cover_data_hash && shown.is_waiting_for_initial_update
                == player.is_waiting_for_initial_update
            &&& other ==> shown.last_known_position_ms == 0
                && shown.last_known_position_report_time is None && shown.song_duration_ms == 0
            &&& !other ==> shown.last_known_position_ms == player.last_known_position_ms
                && shown.last_known_position_report_time == player.last_known_position_report_time
            &&& first && track.duration_ms > 0 ==> shown.song_duration_ms == track.duration_ms
            &&& !other && !(first && track.duration_ms > 0) ==> shown.song_duration_ms
                == player.song_duration_ms
        }),
{
}

/// A track ends where its timeline does, in whole milliseconds; an end before zero is kept in 64
/// bits like any other time.
pub proof fn law_duration_is_the_end_of_the_timeline(
    title: Seq<char>,
    artist: Seq<char>,
    album: Seq<char>,
    end_time_ticks: i64,
    split_artist: bool,
)
    requires
        title != "正在连接…"@ && title != "Connecting…"@,
    ensures
        track_from(title, artist, album, Some(end_time_ticks), split_artist) matches Some(track)
            && {
            let ms = if end_time_ticks >= 0 || track.duration_ms == 0 {
                track.duration_ms as int
            } else {
                track.duration_ms - 0x1_0000_0000_0000_0000
            };
            &&& end_time_ticks >= 0 ==> ms * 10000 <= end_time_ticks < ms * 10000 + 10000
            &&& end_time_ticks < 0 ==> ms * 10000 - 10000 < end_time_ticks <= ms * 10000
        },
{
}

} // verus!
