//! What is known of a track, how it is read from the player's metadata,
//! how an advertisement is recognised, and how a track names its file.

use vstd::prelude::*;
use vstd::string::*;
use crate::text::{
    clone_opt, contains, has_infix, has_prefix, i32_to_decimal, i32_to_padded2, int_decimal,
    absent_when_no_start_matches, nat_decimal, occurs_at, join_present, joined, replace_absent_is_identity, replace_whole, opt_view, padded2_decimal, present_texts, str_eq, replace_all, replaced, starts_with, text_or,
};

verus! {

/// The metadata of one track as the player announces it.
#[derive(Debug, PartialEq, Eq, Default)]
pub struct TrackInfo {
    pub track_id: String,
    pub title: Option<String>,
    pub album: Option<String>,
    pub artist: Option<String>,
    pub album_artist: Option<String>,
    pub art_url: Option<String>,
    pub track_number: Option<i32>,
    pub disc_number: Option<i32>,
}

/// A track's metadata as mathematical text.
pub struct TrackView {
    pub track_id: Seq<char>,
    pub title: Option<Seq<char>>,
    pub album: Option<Seq<char>>,
    pub artist: Option<Seq<char>>,
    pub album_artist: Option<Seq<char>>,
    pub art_url: Option<Seq<char>>,
    pub track_number: Option<i32>,
    pub disc_number: Option<i32>,
}

impl View for TrackInfo {
    type V = TrackView;

    open spec fn view(&self) -> TrackView {
        TrackView {
            track_id: self.track_id@,
            title: opt_view(self.title),
            album: opt_view(self.album),
            artist: opt_view(self.artist),
            album_artist: opt_view(self.album_artist),
            art_url: opt_view(self.art_url),
            track_number: self.track_number,
            disc_number: self.disc_number,
        }
    }
}

impl Clone for TrackInfo {
    fn clone(&self) -> (r: Self)
        ensures
            r@ == self@,
    {
        TrackInfo {
            track_id: self.track_id.clone(),
            title: clone_opt(&self.title),
            album: clone_opt(&self.album),
            artist: clone_opt(&self.artist),
            album_artist: clone_opt(&self.album_artist),
            art_url: clone_opt(&self.art_url),
            track_number: self.track_number,
            disc_number: self.disc_number,
        }
    }
}

impl TrackView {
    /// The track is an advertisement or carries no usable identity: its id
    /// names an ad (contains `/ad/` or starts with `spotify:ad:`), its id is
    /// empty, or its artist or album is present but empty.
    pub open spec fn is_ad(self) -> bool {
        ||| has_infix(self.track_id, "/ad/"@)
        ||| has_prefix(self.track_id, "spotify:ad:"@)
        ||| self.track_id.len() == 0
        ||| self.artist == Some(Seq::<char>::empty())
        ||| self.album == Some(Seq::<char>::empty())
    }
}

/// Whether an optional text is present and empty.
fn is_present_and_empty(o: &Option<String>) -> (b: bool)
    ensures
        b == (opt_view(*o) == Some(Seq::<char>::empty())),
{
    match o {
        Some(s) => {
            let n = s.as_str().unicode_len();
            proof {
                if n == 0 {
                    assert(s@ =~= Seq::<char>::empty());
                }
            }
            n == 0
        },
        None => false,
    }
}

impl TrackInfo {
    /// Whether this track is an advertisement or unusable (see
    /// `TrackView::is_ad`).
    pub fn is_ad(&self) -> (b: bool)
        ensures
            b == self@.is_ad(),
    {
        let id = self.track_id.as_str();
        contains(id, "/ad/") || starts_with(id, "spotify:ad:") || id.unicode_len() == 0
            || is_present_and_empty(&self.artist) || is_present_and_empty(&self.album)
    }
}

/// The relative path of a track's file: `pattern` with each placeholder
/// replaced in this order, each replacement acting on the result of the one
/// before: `{title}`, `{artist}`, `{album}`, `{albumArtist}` (the album artist,
/// else the artist), `{trackNumber}` (zero-padded to two digits, 0 when
/// unknown) and `{discNumber}` (1 when unknown). A missing title, artist or
/// album reads "Unknown Title", "Unknown Artist" or "Unknown Album".
pub open spec fn formatted_path(pattern: Seq<char>, t: TrackView) -> Seq<char> {
    let s1 = replaced(pattern, "{title}"@, text_or(t.title, "Unknown Title"@));
    let s2 = replaced(s1, "{artist}"@, text_or(t.artist, "Unknown Artist"@));
    let s3 = replaced(s2, "{album}"@, text_or(t.album, "Unknown Album"@));
    let s4 = replaced(
        s3,
        "{albumArtist}"@,
        text_or(t.album_artist, text_or(t.artist, "Unknown Artist"@)),
    );
    let s5 = replaced(
        s4,
        "{trackNumber}"@,
        padded2_decimal(
            match t.track_number {
                Some(n) => n as int,
                None => 0,
            },
        ),
    );
    replaced(
        s5,
        "{discNumber}"@,
        int_decimal(
            match t.disc_number {
                Some(n) => n as int,
                None => 1,
            },
        ),
    )
}

/// A pattern without placeholders names every track's file the same: the
/// pattern itself.
pub proof fn plain_pattern_is_kept(pattern: Seq<char>, t: TrackView)
    requires
        !has_infix(pattern, "{title}"@),
        !has_infix(pattern, "{artist}"@),
        !has_infix(pattern, "{album}"@),
        !has_infix(pattern, "{albumArtist}"@),
        !has_infix(pattern, "{trackNumber}"@),
        !has_infix(pattern, "{discNumber}"@),
    ensures
        formatted_path(pattern, t) == pattern,
{
    replace_absent_is_identity(pattern, "{title}"@, text_or(t.title, "Unknown Title"@));
    replace_absent_is_identity(pattern, "{artist}"@, text_or(t.artist, "Unknown Artist"@));
    replace_absent_is_identity(pattern, "{album}"@, text_or(t.album, "Unknown Album"@));
    replace_absent_is_identity(
        pattern,
        "{albumArtist}"@,
        text_or(t.album_artist, text_or(t.artist, "Unknown Artist"@)),
    );
    replace_absent_is_identity(
        pattern,
        "{trackNumber}"@,
        padded2_decimal(
            match t.track_number {
                Some(n) => n as int,
                None => 0,
            },
        ),
    );
    replace_absent_is_identity(
        pattern,
        "{discNumber}"@,
        int_decimal(
            match t.disc_number {
                Some(n) => n as int,
                None => 1,
            },
        ),
    );
}

/// The placeholders, in the order in which they are filled.
pub open spec fn placeholders() -> Seq<Seq<char>> {
    seq!["{title}"@, "{artist}"@, "{album}"@, "{albumArtist}"@, "{trackNumber}"@, "{discNumber}"@]
}

/// A text without an opening brace holds no placeholder.
proof fn braceless_holds_no_placeholder(s: Seq<char>)
    requires
        forall|i: int| 0 <= i < s.len() ==> s[i] != '{',
    ensures
        forall|k: int| 0 <= k < 6 ==> !has_infix(s, #[trigger] placeholders()[k]),
{
    reveal_strlit("{title}");
    reveal_strlit("{artist}");
    reveal_strlit("{album}");
    reveal_strlit("{albumArtist}");
    reveal_strlit("{trackNumber}");
    reveal_strlit("{discNumber}");
    assert forall|k: int| 0 <= k < 6 implies !has_infix(s, #[trigger] placeholders()[k]) by {
        let p = placeholders()[k];
        assert(p[0] == '{');
        absent_when_no_start_matches(s, p);
    }
}

/// Each placeholder occurs in no other placeholder.
proof fn placeholders_are_separate()
    ensures
        forall|a: int, b: int|
            0 <= a < 6 && 0 <= b < 6 && a != b ==> !has_infix(
                #[trigger] placeholders()[a],
                #[trigger] placeholders()[b],
            ),
{
    reveal_strlit("{title}");
    reveal_strlit("{artist}");
    reveal_strlit("{album}");
    reveal_strlit("{albumArtist}");
    reveal_strlit("{trackNumber}");
    reveal_strlit("{discNumber}");
    assert forall|a: int, b: int|
        0 <= a < 6 && 0 <= b < 6 && a != b implies !has_infix(
        #[trigger] placeholders()[a],
        #[trigger] placeholders()[b],
    ) by {
        let s = placeholders()[a];
        let p = placeholders()[b];
        assert forall|i: int| 0 <= i < s.len() && s[i] == p[0] implies !occurs_at(s, p, i) by {
            assert(i == 0);
            if occurs_at(s, p, 0) {
                let w = s.subrange(0, p.len() as int);
                assert(w[1] == p[1]);
                assert(w[2] == p[2]);
                assert(w[3] == p[3]);
                assert(w[4] == p[4]);
                assert(w[5] == p[5]);
                assert(w[6] == p[6]);
            }
        }
        absent_when_no_start_matches(s, p);
    }
}

/// No character of `s` is an opening brace.
pub open spec fn braceless(s: Seq<char>) -> bool {
    forall|i: int| 0 <= i < s.len() ==> s[i] != '{'
}

/// The value that fills placeholder `k` (in the order of `placeholders`).
spec fn placeholder_value(t: TrackView, k: int) -> Seq<char> {
    if k == 0 {
        text_or(t.title, "Unknown Title"@)
    } else if k == 1 {
        text_or(t.artist, "Unknown Artist"@)
    } else if k == 2 {
        text_or(t.album, "Unknown Album"@)
    } else if k == 3 {
        text_or(t.album_artist, text_or(t.artist, "Unknown Artist"@))
    } else if k == 4 {
        padded2_decimal(
            match t.track_number {
                Some(n) => n as int,
                None => 0,
            },
        )
    } else {
        int_decimal(
            match t.disc_number {
                Some(n) => n as int,
                None => 1,
            },
        )
    }
}

/// Decimal digits hold no opening brace.
proof fn decimal_is_braceless(n: int)
    ensures
        braceless(int_decimal(n)),
        braceless(padded2_decimal(n)),
{
    nat_decimal_is_braceless(if n < 0 {
        (-n) as nat
    } else {
        n as nat
    });
}

proof fn nat_decimal_is_braceless(n: nat)
    ensures
        braceless(nat_decimal(n)),
    decreases n,
{
    if n >= 10 {
        nat_decimal_is_braceless(n / 10);
    }
}

/// A pattern that is a single placeholder gives that placeholder's value,
/// when the value holds no opening brace.
proof fn single_placeholder(t: TrackView, k: int)
    requires
        0 <= k < 6,
        braceless(placeholder_value(t, k)),
    ensures
        formatted_path(placeholders()[k], t) == placeholder_value(t, k),
{
    reveal_strlit("{title}");
    reveal_strlit("{artist}");
    reveal_strlit("{album}");
    reveal_strlit("{albumArtist}");
    reveal_strlit("{trackNumber}");
    reveal_strlit("{discNumber}");
    placeholders_are_separate();
    braceless_holds_no_placeholder(placeholder_value(t, k));
    let v = placeholder_value(t, k);
    assert forall|j: int| 0 <= j < 6 && j != k implies replaced(
        placeholders()[k],
        #[trigger] placeholders()[j],
        placeholder_value(t, j),
    ) == placeholders()[k] by {
        replace_absent_is_identity(placeholders()[k], placeholders()[j], placeholder_value(t, j));
    }
    replace_whole(placeholders()[k], v);
    assert forall|j: int| 0 <= j < 6 implies replaced(
        v,
        #[trigger] placeholders()[j],
        placeholder_value(t, j),
    ) == v by {
        replace_absent_is_identity(v, placeholders()[j], placeholder_value(t, j));
    }
    let ph = placeholders();
    assert(ph[0] == "{title}"@ && ph[1] == "{artist}"@ && ph[2] == "{album}"@);
    assert(ph[3] == "{albumArtist}"@ && ph[4] == "{trackNumber}"@ && ph[5] == "{discNumber}"@);
}

/// A field that a track lacks reads as its default wherever its placeholder
/// stands: "Unknown Title", "Unknown Artist", "Unknown Album", the album
/// artist "Unknown Artist" when neither album artist nor artist is known,
/// track number "00" and disc number "1".
pub proof fn missing_fields_read_as_defaults(t: TrackView)
    ensures
        t.title is None ==> formatted_path("{title}"@, t) == "Unknown Title"@,
        t.artist is None ==> formatted_path("{artist}"@, t) == "Unknown Artist"@,
        t.album is None ==> formatted_path("{album}"@, t) == "Unknown Album"@,
        t.album_artist is None && t.artist is None ==> formatted_path("{albumArtist}"@, t)
            == "Unknown Artist"@,
        t.track_number is None ==> formatted_path("{trackNumber}"@, t) == "00"@,
        t.disc_number is None ==> formatted_path("{discNumber}"@, t) == "1"@,
{
    reveal_strlit("Unknown Title");
    reveal_strlit("Unknown Artist");
    reveal_strlit("Unknown Album");
    reveal_strlit("00");
    reveal_strlit("1");
    let ph = placeholders();
    assert(ph[0] == "{title}"@ && ph[1] == "{artist}"@ && ph[2] == "{album}"@);
    assert(ph[3] == "{albumArtist}"@ && ph[4] == "{trackNumber}"@ && ph[5] == "{discNumber}"@);
    if t.title is None {
        single_placeholder(t, 0);
    }
    if t.artist is None {
        single_placeholder(t, 1);
    }
    if t.album is None {
        single_placeholder(t, 2);
    }
    if t.album_artist is None && t.artist is None {
        single_placeholder(t, 3);
    }
    if t.track_number is None {
        assert(padded2_decimal(0) =~= "00"@);
        single_placeholder(t, 4);
    }
    if t.disc_number is None {
        assert(int_decimal(1) =~= "1"@);
        single_placeholder(t, 5);
    }
}

/// A field that a track has fills its placeholder with its value (when the
/// value holds no opening brace): the title, artist and album; the album
/// artist, or the artist when no album artist is known; and the numbers in
/// decimal, the track number padded to two digits.
pub proof fn present_fields_fill_their_placeholders(t: TrackView)
    ensures
        t.title is Some && braceless(t.title->0) ==> formatted_path("{title}"@, t) == t.title->0,
        t.artist is Some && braceless(t.artist->0) ==> formatted_path("{artist}"@, t)
            == t.artist->0,
        t.album is Some && braceless(t.album->0) ==> formatted_path("{album}"@, t) == t.album->0,
        t.album_artist is Some && braceless(t.album_artist->0) ==> formatted_path(
            "{albumArtist}"@,
            t,
        ) == t.album_artist->0,
        t.album_artist is None && t.artist is Some && braceless(t.artist->0) ==> formatted_path(
            "{albumArtist}"@,
            t,
        ) == t.artist->0,
        t.track_number is Some ==> formatted_path("{trackNumber}"@, t) == padded2_decimal(
            t.track_number->0 as int,
        ),
        t.disc_number is Some ==> formatted_path("{discNumber}"@, t) == int_decimal(
            t.disc_number->0 as int,
        ),
{
    let ph = placeholders();
    assert(ph[0] == "{title}"@ && ph[1] == "{artist}"@ && ph[2] == "{album}"@);
    assert(ph[3] == "{albumArtist}"@ && ph[4] == "{trackNumber}"@ && ph[5] == "{discNumber}"@);
    if t.title is Some && braceless(t.title->0) {
        single_placeholder(t, 0);
    }
    if t.artist is Some && braceless(t.artist->0) {
        single_placeholder(t, 1);
    }
    if t.album is Some && braceless(t.album->0) {
        single_placeholder(t, 2);
    }
    if t.album_artist is Some && braceless(t.album_artist->0) {
        single_placeholder(t, 3);
    }
    if t.album_artist is None && t.artist is Some && braceless(t.artist->0) {
        single_placeholder(t, 3);
    }
    if t.track_number is Some {
        decimal_is_braceless(t.track_number->0 as int);
        single_placeholder(t, 4);
    }
    if t.disc_number is Some {
        decimal_is_braceless(t.disc_number->0 as int);
        single_placeholder(t, 5);
    }
}

/// The text of `o`, or `default` when it is absent.
fn text_or_default<'a>(o: &'a Option<String>, default: &'a str) -> (r: &'a str)
    ensures
        r@ == text_or(opt_view(*o), default@),
{
    match o {
        Some(s) => s.as_str(),
        None => default,
    }
}

/// Fills the placeholders of `pattern` from `track` (see `formatted_path`).
pub fn format_path(pattern: &str, track: &TrackInfo) -> (r: String)
    ensures
        r@ == formatted_path(pattern@, track@),
{
    proof {
        reveal_strlit("{title}");
        reveal_strlit("{artist}");
        reveal_strlit("{album}");
        reveal_strlit("{albumArtist}");
        reveal_strlit("{trackNumber}");
        reveal_strlit("{discNumber}");
    }
    let s1 = replace_all(pattern, "{title}", text_or_default(&track.title, "Unknown Title"));
    let s2 = replace_all(
        s1.as_str(),
        "{artist}",
        text_or_default(&track.artist, "Unknown Artist"),
    );
    let s3 = replace_all(s2.as_str(), "{album}", text_or_default(&track.album, "Unknown Album"));
    let artist = text_or_default(&track.artist, "Unknown Artist");
    let album_artist = match &track.album_artist {
        Some(a) => a.as_str(),
        None => artist,
    };
    let s4 = replace_all(s3.as_str(), "{albumArtist}", album_artist);
    let number = match track.track_number {
        Some(n) => n,
        None => 0,
    };
    let number_text = i32_to_padded2(number);
    let s5 = replace_all(s4.as_str(), "{trackNumber}", number_text.as_str());
    let disc = match track.disc_number {
        Some(n) => n,
        None => 1,
    };
    let disc_text = i32_to_decimal(disc);
    replace_all(s5.as_str(), "{discNumber}", disc_text.as_str())
}

/// A value of the player's metadata dictionary, as far as the track logic
/// reads it: a string, a 32-bit integer, an array (each element kept when it
/// is a string), or anything else.
#[derive(Debug)]
pub enum MetaValue {
    Text(String),
    Int32(i32),
    TextList(Vec<Option<String>>),
    Other,
}

/// A metadata value as mathematical text.
pub enum MetaValueView {
    Text(Seq<char>),
    Int32(i32),
    TextList(Seq<Option<Seq<char>>>),
    Other,
}

impl View for MetaValue {
    type V = MetaValueView;

    open spec fn view(&self) -> MetaValueView {
        match self {
            MetaValue::Text(s) => MetaValueView::Text(s@),
            MetaValue::Int32(n) => MetaValueView::Int32(*n),
            MetaValue::TextList(items) => MetaValueView::TextList(
                items@.map_values(|o: Option<String>| opt_view(o)),
            ),
            MetaValue::Other => MetaValueView::Other,
        }
    }
}

/// The player's metadata dictionary: keys with their values. Where a key
/// occurs twice, the first entry counts.
#[derive(Debug)]
pub struct Metadata {
    pub entries: Vec<(String, MetaValue)>,
}

impl View for Metadata {
    type V = Seq<(Seq<char>, MetaValueView)>;

    open spec fn view(&self) -> Seq<(Seq<char>, MetaValueView)> {
        self.entries@.map_values(|e: (String, MetaValue)| (e.0@, e.1@))
    }
}

/// The value stored under `key`: that of the first entry with this key.
pub open spec fn lookup(entries: Seq<(Seq<char>, MetaValueView)>, key: Seq<char>) -> Option<
    MetaValueView,
>
    decreases entries.len(),
{
    if entries.len() == 0 {
        None
    } else if entries[0].0 == key {
        Some(entries[0].1)
    } else {
        lookup(entries.drop_first(), key)
    }
}

/// The value found under a key is that of the first entry with the key, and
/// a key that no entry has finds nothing.
pub proof fn lookup_finds_first_entry(entries: Seq<(Seq<char>, MetaValueView)>, key: Seq<char>)
    ensures
        lookup(entries, key) is None <==> forall|i: int|
            0 <= i < entries.len() ==> #[trigger] entries[i].0 != key,
        lookup(entries, key) matches Some(v) ==> exists|i: int|
            0 <= i < entries.len() && #[trigger] entries[i] == (key, v) && forall|j: int|
                0 <= j < i ==> #[trigger] entries[j].0 != key,
    decreases entries.len(),
{
    if entries.len() > 0 {
        let rest = entries.drop_first();
        lookup_finds_first_entry(rest, key);
        if entries[0].0 == key {
            assert(entries[0] == (key, entries[0].1));
        } else {
            assert forall|i: int| 0 <= i < rest.len() implies #[trigger] rest[i] == entries[i + 1] by {}
            if lookup(rest, key) is None {
                assert forall|i: int| 0 <= i < entries.len() implies #[trigger] entries[i].0 != key by {
                    if i > 0 {
                        assert(rest[i - 1] == entries[i]);
                    }
                }
            } else {
                let v = lookup(rest, key)->0;
                let i = choose|i: int|
                    0 <= i < rest.len() && #[trigger] rest[i] == (key, v) && forall|j: int|
                        0 <= j < i ==> #[trigger] rest[j].0 != key;
                assert(entries[i + 1] == (key, v));
                assert forall|j: int| 0 <= j < i + 1 implies #[trigger] entries[j].0 != key by {
                    if j > 0 {
                        assert(rest[j - 1] == entries[j]);
                    }
                }
            }
        }
    }
}

/// Each field of a parsed track comes from the value under its own key: the
/// track number from `xesam:trackNumber`, the disc number from
/// `xesam:discNumber`, the title from `xesam:title`, and so on.
pub proof fn parsed_fields_follow_their_keys(md: Seq<(Seq<char>, MetaValueView)>)
    ensures
        track_of(md).track_number == (match lookup(md, "xesam:trackNumber"@) {
            Some(MetaValueView::Int32(n)) => Some(n),
            _ => None,
        }),
        track_of(md).disc_number == (match lookup(md, "xesam:discNumber"@) {
            Some(MetaValueView::Int32(n)) => Some(n),
            _ => None,
        }),
        track_of(md).title == (match lookup(md, "xesam:title"@) {
            Some(MetaValueView::Text(s)) => Some(s),
            _ => None,
        }),
        track_of(md).album == (match lookup(md, "xesam:album"@) {
            Some(MetaValueView::Text(s)) => Some(s),
            _ => None,
        }),
        track_of(md).art_url == (match lookup(md, "mpris:artUrl"@) {
            Some(MetaValueView::Text(s)) => Some(s),
            _ => None,
        }),
        track_of(md).track_id == (match lookup(md, "mpris:trackid"@) {
            Some(MetaValueView::Text(s)) => s,
            _ => Seq::<char>::empty(),
        }),
        track_of(md).artist == (match lookup(md, "xesam:artist"@) {
            Some(MetaValueView::TextList(items)) => Some(joined(present_texts(items), ", "@)),
            _ => None,
        }),
        track_of(md).album_artist == (match lookup(md, "xesam:albumArtist"@) {
            Some(MetaValueView::TextList(items)) => Some(joined(present_texts(items), ", "@)),
            _ => None,
        }),
{
}

/// The string stored under `key`, if the value there is a string.
pub open spec fn text_entry(md: Seq<(Seq<char>, MetaValueView)>, key: Seq<char>) -> Option<
    Seq<char>,
> {
    match lookup(md, key) {
        Some(MetaValueView::Text(s)) => Some(s),
        _ => None,
    }
}

/// The integer stored under `key`, if the value there is a 32-bit integer.
pub open spec fn int_entry(md: Seq<(Seq<char>, MetaValueView)>, key: Seq<char>) -> Option<i32> {
    match lookup(md, key) {
        Some(MetaValueView::Int32(n)) => Some(n),
        _ => None,
    }
}

/// The string elements of the array stored under `key`, joined by ", ", if
/// the value there is an array.
pub open spec fn list_entry(md: Seq<(Seq<char>, MetaValueView)>, key: Seq<char>) -> Option<
    Seq<char>,
> {
    match lookup(md, key) {
        Some(MetaValueView::TextList(items)) => Some(joined(present_texts(items), ", "@)),
        _ => None,
    }
}

/// The track that a metadata dictionary describes, read by the MPRIS keys:
/// `mpris:trackid` (empty when absent or not a string), `xesam:title`,
/// `xesam:album`, `mpris:artUrl`, `xesam:trackNumber`, `xesam:discNumber`,
/// `xesam:artist` and `xesam:albumArtist`.
pub open spec fn track_of(md: Seq<(Seq<char>, MetaValueView)>) -> TrackView {
    TrackView {
        track_id: text_or(text_entry(md, "mpris:trackid"@), Seq::empty()),
        title: text_entry(md, "xesam:title"@),
        album: text_entry(md, "xesam:album"@),
        artist: list_entry(md, "xesam:artist"@),
        album_artist: list_entry(md, "xesam:albumArtist"@),
        art_url: text_entry(md, "mpris:artUrl"@),
        track_number: int_entry(md, "xesam:trackNumber"@),
        disc_number: int_entry(md, "xesam:discNumber"@),
    }
}

impl Metadata {
    /// The value stored under `key`.
    pub fn get(&self, key: &str) -> (r: Option<&MetaValue>)
        ensures
            match r {
                Some(v) => lookup(self@, key@) == Some(v@),
                None => lookup(self@, key@) is None,
            },
    {
        let n = self.entries.len();
        let mut i: usize = 0;
        assert(self@.subrange(0, n as int) =~= self@);
        while i < n
            invariant
                n == self.entries@.len(),
                n == self@.len(),
                i <= n,
                lookup(self@, key@) == lookup(self@.subrange(i as int, n as int), key@),
            decreases n - i,
        {
            let ghost rest = self@.subrange(i as int, n as int);
            assert(rest[0] == self@[i as int]);
            if str_eq(self.entries[i].0.as_str(), key) {
                return Some(&self.entries[i].1);
            }
            assert(rest.drop_first() =~= self@.subrange(i + 1, n as int));
            i = i + 1;
        }
        None
    }

    /// The string stored under `key`.
    pub fn text(&self, key: &str) -> (r: Option<String>)
        ensures
            opt_view(r) == text_entry(self@, key@),
    {
        match self.get(key) {
            Some(MetaValue::Text(s)) => Some(s.clone()),
            _ => None,
        }
    }

    /// The 32-bit integer stored under `key`.
    pub fn int32(&self, key: &str) -> (r: Option<i32>)
        ensures
            r == int_entry(self@, key@),
    {
        match self.get(key) {
            Some(MetaValue::Int32(n)) => Some(*n),
            _ => None,
        }
    }

    /// The string elements of the array stored under `key`, joined by ", ".
    pub fn joined_list(&self, key: &str) -> (r: Option<String>)
        ensures
            opt_view(r) == list_entry(self@, key@),
    {
        proof {
            reveal_strlit(", ");
        }
        match self.get(key) {
            Some(MetaValue::TextList(items)) => Some(join_present(items, ", ")),
            _ => None,
        }
    }
}

/// Reads a track from the player's metadata (see `track_of`): each field
/// comes from the value stored under its own MPRIS key, when that value has
/// the field's kind.
pub fn parse_track_info(metadata: &Metadata) -> (t: TrackInfo)
    ensures
        t@ == track_of(metadata@),
        t@.track_id == (match lookup(metadata@, "mpris:trackid"@) {
            Some(MetaValueView::Text(s)) => s,
            _ => Seq::<char>::empty(),
        }),
        t@.title == (match lookup(metadata@, "xesam:title"@) {
            Some(MetaValueView::Text(s)) => Some(s),
            _ => None,
        }),
        t@.album == (match lookup(metadata@, "xesam:album"@) {
            Some(MetaValueView::Text(s)) => Some(s),
            _ => None,
        }),
        t@.art_url == (match lookup(metadata@, "mpris:artUrl"@) {
            Some(MetaValueView::Text(s)) => Some(s),
            _ => None,
        }),
        t.track_number == (match lookup(metadata@, "xesam:trackNumber"@) {
            Some(MetaValueView::Int32(n)) => Some(n),
            _ => None,
        }),
        t.disc_number == (match lookup(metadata@, "xesam:discNumber"@) {
            Some(MetaValueView::Int32(n)) => Some(n),
            _ => None,
        }),
        t@.artist == (match lookup(metadata@, "xesam:artist"@) {
            Some(MetaValueView::TextList(items)) => Some(joined(present_texts(items), ", "@)),
            _ => None,
        }),
        t@.album_artist == (match lookup(metadata@, "xesam:albumArtist"@) {
            Some(MetaValueView::TextList(items)) => Some(joined(present_texts(items), ", "@)),
            _ => None,
        }),
{
    let track_id = match metadata.text("mpris:trackid") {
        Some(s) => s,
        None => String::new(),
    };
    TrackInfo {
        track_id,
        title: metadata.text("xesam:title"),
        album: metadata.text("xesam:album"),
        artist: metadata.joined_list("xesam:artist"),
        album_artist: metadata.joined_list("xesam:albumArtist"),
        art_url: metadata.text("mpris:artUrl"),
        track_number: metadata.int32("xesam:trackNumber"),
        disc_number: metadata.int32("xesam:discNumber"),
    }
}

/// `n as u32` for an `i32`: the two's-complement bits read as unsigned.
pub open spec fn as_u32(n: i32) -> u32 {
    if n >= 0 {
        n as u32
    } else {
        (n + 0x1_0000_0000) as u32
    }
}

/// The tag values written into a captured file for a track.
#[derive(Debug, PartialEq, Eq)]
pub struct TagPlan {
    pub title: String,
    pub artist: String,
    pub album: String,
    /// The album artist, else the artist; no album-artist item when neither
    /// is known.
    pub album_artist: Option<String>,
    pub track: Option<u32>,
    pub disk: Option<u32>,
    /// Where the cover picture is downloaded from.
    pub cover_url: Option<String>,
}

/// Converts an `i32` to `u32` as `as` does.
fn to_u32(n: i32) -> (r: u32)
    ensures
        r == as_u32(n),
{
    if n >= 0 {
        n as u32
    } else {
        (n as i64 + 0x1_0000_0000i64) as u32
    }
}

/// The tag values for `track`: title, artist and album with "Unknown Title",
/// "Unknown Artist" and "Unknown Album" in place of a missing one; the album
/// artist, or else the artist; track and disc numbers converted to `u32`; and
/// the cover address.
pub fn plan_tags(track: &TrackInfo) -> (p: TagPlan)
    ensures
        p.title@ == text_or(track@.title, "Unknown Title"@),
        p.artist@ == text_or(track@.artist, "Unknown Artist"@),
        p.album@ == text_or(track@.album, "Unknown Album"@),
        opt_view(p.album_artist) == (match track@.album_artist {
            Some(a) => Some(a),
            None => track@.artist,
        }),
        p.track == (match track.track_number {
            Some(n) => Some(as_u32(n)),
            None => None::<u32>,
        }),
        p.disk == (match track.disc_number {
            Some(n) => Some(as_u32(n)),
            None => None::<u32>,
        }),
        opt_view(p.cover_url) == track@.art_url,
{
    let album_artist = match &track.album_artist {
        Some(a) => Some(a.clone()),
        None => clone_opt(&track.artist),
    };
    TagPlan {
        title: String::from_str(text_or_default(&track.title, "Unknown Title")),
        artist: String::from_str(text_or_default(&track.artist, "Unknown Artist")),
        album: String::from_str(text_or_default(&track.album, "Unknown Album")),
        album_artist,
        track: match track.track_number {
            Some(n) => Some(to_u32(n)),
            None => None,
        },
        disk: match track.disc_number {
            Some(n) => Some(to_u32(n)),
            None => None,
        },
        cover_url: clone_opt(&track.art_url),
    }
}

} // verus!
