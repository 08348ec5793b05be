use taped::track::{format_path, parse_track_info, plan_tags, MetaValue, Metadata, TrackInfo};

fn titled(id: &str, title: &str) -> TrackInfo {
    TrackInfo {
        track_id: id.to_string(),
        title: Some(title.to_string()),
        ..Default::default()
    }
}

const LIBRARY_PATTERN: &str = "{albumArtist} - {album}/{trackNumber} - {title}";

#[test]
fn format_path_defaults_for_missing_fields() {
    let track = titled("track3", "Song 3");
    assert_eq!(
        format_path(LIBRARY_PATTERN, &track),
        "Unknown Artist - Unknown Album/00 - Song 3"
    );
}

#[test]
fn format_path_full_track() {
    let track = TrackInfo {
        track_id: "/com/spotify/track/7Lf7oSEVdzZqTA0kEDSlS5".to_string(),
        title: Some("Cry Me a River".to_string()),
        album: Some("Justified".to_string()),
        artist: Some("Justin Timberlake".to_string()),
        album_artist: Some("Justin Timberlake".to_string()),
        art_url: None,
        track_number: Some(5),
        disc_number: Some(1),
    };
    assert_eq!(
        format_path(LIBRARY_PATTERN, &track),
        "Justin Timberlake - Justified/05 - Cry Me a River"
    );
    assert_eq!(format_path("{discNumber}-{trackNumber}", &track), "1-05");
}

#[test]
fn format_path_album_artist_falls_back_to_artist() {
    let mut track = titled("t", "T");
    track.artist = Some("Solo".to_string());
    assert_eq!(format_path("{albumArtist}|{artist}", &track), "Solo|Solo");
    track.album_artist = Some("Band".to_string());
    assert_eq!(format_path("{albumArtist}|{artist}", &track), "Band|Solo");
}

#[test]
fn format_path_numbers() {
    let mut track = titled("t", "T");
    assert_eq!(format_path("{trackNumber}/{discNumber}", &track), "00/1");
    track.track_number = Some(12);
    track.disc_number = Some(3);
    assert_eq!(format_path("{trackNumber}/{discNumber}", &track), "12/3");
    track.track_number = Some(-3);
    track.disc_number = Some(-40);
    assert_eq!(format_path("{trackNumber}/{discNumber}", &track), "-3/-40");
    track.track_number = Some(i32::MIN);
    track.disc_number = Some(i32::MAX);
    assert_eq!(
        format_path("{trackNumber}/{discNumber}", &track),
        "-2147483648/2147483647"
    );
    track.track_number = Some(9);
    track.disc_number = Some(0);
    assert_eq!(format_path("{trackNumber}/{discNumber}", &track), "09/0");
}

#[test]
fn format_path_repeats_and_plain_text() {
    let track = titled("t", "X");
    assert_eq!(format_path("{title}{title}-{title}", &track), "XX-X");
    assert_eq!(format_path("no placeholders", &track), "no placeholders");
    assert_eq!(format_path("", &track), "");
    assert_eq!(format_path("{titl}{title", &track), "{titl}{title");
}

#[test]
fn format_path_replacements_feed_later_placeholders() {
    let mut track = titled("t", "{artist}");
    track.artist = Some("A".to_string());
    assert_eq!(format_path("{title}", &track), "A");
}

#[test]
fn is_ad_recognises_advertisements() {
    assert!(titled("spotify:ad:123", "x").is_ad());
    assert!(titled("/com/spotify/ad/2b5a5d0c7d4d4b78a84df74a5c94ba8e", "x").is_ad());
    assert!(titled("", "x").is_ad());
    let mut t = titled("/com/spotify/track/7g2BBjUQWJDdRohU8mOOZk", "Satisfaction");
    assert!(!t.is_ad());
    t.artist = Some(String::new());
    assert!(t.is_ad());
    t.artist = Some("Benny Benassi".to_string());
    assert!(!t.is_ad());
    t.album = Some(String::new());
    assert!(t.is_ad());
    t.album = Some("Hypnotica".to_string());
    assert!(!t.is_ad());
    assert!(!titled("spotify:track:ad", "x").is_ad());
    assert!(!titled("xspotify:ad:", "x").is_ad());
}

fn text(s: &str) -> MetaValue {
    MetaValue::Text(s.to_string())
}

fn entry(k: &str, v: MetaValue) -> (String, MetaValue) {
    (k.to_string(), v)
}

#[test]
fn parse_track_info_reads_mpris_keys() {
    let md = Metadata {
        entries: vec![
            entry("mpris:trackid", text("/com/spotify/track/3VQuZhYpXDUxawmAH4zA5u")),
            entry("mpris:length", MetaValue::Other),
            entry("mpris:artUrl", text("https://i.scdn.co/image/ab67")),
            entry("xesam:album", text("Ich und meine Ubahn (Extrawelt Remixes)")),
            entry("xesam:albumArtist", MetaValue::TextList(vec![Some("11Schnull".to_string())])),
            entry("xesam:artist", MetaValue::TextList(vec![Some("11Schnull".to_string())])),
            entry("xesam:discNumber", MetaValue::Int32(1)),
            entry("xesam:title", text("Ich und meine Ubahn - Extrawelt Remix")),
            entry("xesam:trackNumber", MetaValue::Int32(1)),
        ],
    };
    let t = parse_track_info(&md);
    let expected = TrackInfo {
        track_id: "/com/spotify/track/3VQuZhYpXDUxawmAH4zA5u".to_string(),
        title: Some("Ich und meine Ubahn - Extrawelt Remix".to_string()),
        album: Some("Ich und meine Ubahn (Extrawelt Remixes)".to_string()),
        artist: Some("11Schnull".to_string()),
        album_artist: Some("11Schnull".to_string()),
        art_url: Some("https://i.scdn.co/image/ab67".to_string()),
        track_number: Some(1),
        disc_number: Some(1),
    };
    assert_eq!(t, expected);
}

#[test]
fn parse_track_info_joins_string_elements_only() {
    let md = Metadata {
        entries: vec![
            entry(
                "xesam:artist",
                MetaValue::TextList(vec![Some("A".to_string()), None, Some("B".to_string())]),
            ),
            entry("xesam:albumArtist", MetaValue::TextList(vec![])),
        ],
    };
    let t = parse_track_info(&md);
    assert_eq!(t.artist, Some("A, B".to_string()));
    assert_eq!(t.album_artist, Some(String::new()));
    assert_eq!(t.track_id, "");
    assert_eq!(t.title, None);
}

#[test]
fn parse_track_info_ignores_values_of_other_kinds() {
    let md = Metadata {
        entries: vec![
            entry("mpris:trackid", MetaValue::Int32(7)),
            entry("xesam:title", MetaValue::Int32(7)),
            entry("xesam:trackNumber", text("7")),
            entry("xesam:artist", text("Someone")),
            entry("xesam:discNumber", MetaValue::Other),
        ],
    };
    let t = parse_track_info(&md);
    assert_eq!(t, TrackInfo::default());
}

#[test]
fn parse_track_info_first_entry_wins() {
    let md = Metadata {
        entries: vec![
            entry("xesam:title", text("first")),
            entry("xesam:title", text("second")),
        ],
    };
    assert_eq!(parse_track_info(&md).title, Some("first".to_string()));
    let empty = Metadata { entries: vec![] };
    assert_eq!(parse_track_info(&empty), TrackInfo::default());
}

#[test]
fn plan_tags_defaults_and_conversions() {
    let t = TrackInfo { track_id: "x".to_string(), ..Default::default() };
    let p = plan_tags(&t);
    assert_eq!(p.title, "Unknown Title");
    assert_eq!(p.artist, "Unknown Artist");
    assert_eq!(p.album, "Unknown Album");
    assert_eq!(p.album_artist, None);
    assert_eq!(p.track, None);
    assert_eq!(p.disk, None);
    assert_eq!(p.cover_url, None);

    let t = TrackInfo {
        track_id: "x".to_string(),
        title: Some("T".to_string()),
        album: Some("Al".to_string()),
        artist: Some("Ar".to_string()),
        album_artist: None,
        art_url: Some("https://a/b.jpg".to_string()),
        track_number: Some(4),
        disc_number: Some(-1),
    };
    let p = plan_tags(&t);
    assert_eq!(p.title, "T");
    assert_eq!(p.album_artist, Some("Ar".to_string()));
    assert_eq!(p.track, Some(4));
    assert_eq!(p.disk, Some(4294967295));
    assert_eq!(p.cover_url, Some("https://a/b.jpg".to_string()));
}

#[test]
fn track_clone_keeps_every_field() {
    let mut t = titled("id", "title");
    t.track_number = Some(3);
    t.art_url = Some("u".to_string());
    assert_eq!(t.clone(), t);
}

#[test]
fn advertisement_metadata_is_recognised() {
    let ad = Metadata {
        entries: vec![
            entry("mpris:trackid", text("/com/spotify/ad/2b5a5d0c7d4d4b78a84df74a5c94ba8e")),
            entry("mpris:artUrl", text("")),
            entry("xesam:album", text("")),
            entry("xesam:albumArtist", MetaValue::TextList(vec![Some(String::new())])),
            entry("xesam:artist", MetaValue::TextList(vec![Some(String::new())])),
            entry("xesam:discNumber", MetaValue::Int32(0)),
            entry("xesam:title", text("Hör Musik ohne Werbepausen.")),
            entry("xesam:trackNumber", MetaValue::Int32(0)),
        ],
    };
    let t = parse_track_info(&ad);
    assert_eq!(t.artist, Some(String::new()));
    assert!(t.is_ad());

    let song = Metadata {
        entries: vec![
            entry("mpris:trackid", text("/com/spotify/track/7g2BBjUQWJDdRohU8mOOZk")),
            entry("xesam:album", text("Hypnotica")),
            entry("xesam:artist", MetaValue::TextList(vec![Some("Benny Benassi".to_string())])),
            entry("xesam:title", text("Satisfaction - Isak Original Extended")),
        ],
    };
    assert!(!parse_track_info(&song).is_ad());
}
