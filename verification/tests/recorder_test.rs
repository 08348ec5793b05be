use taped::recorder::{
    capture_file, capture_plan_for, capture_shell_command, export_destination, find_source, plan_capture,
    rename_needs_copy, sink_monitor_source,
};
use taped::config::{AudioConfig, QualityProfile};
use taped::track::TrackInfo;

const PACTL_SOURCES: &[u8] =
    b"0\talsa_output.pci.monitor\tmodule-alsa-card.c\ts16le 2ch 44100Hz\tSUSPENDED\n1\tdefault-sink.monitor\tmodule-null-sink.c\ts16le 2ch 44100Hz\tRUNNING\n";

#[test]
fn finds_the_default_sink_monitor() {
    assert_eq!(sink_monitor_source(b"default-sink\n", PACTL_SOURCES), Some("1".to_string()));
    assert_eq!(
        sink_monitor_source(b"  alsa_output.pci \r\n", PACTL_SOURCES),
        Some("0".to_string())
    );
    assert_eq!(sink_monitor_source(b"other\n", PACTL_SOURCES), None);
    assert_eq!(sink_monitor_source(b"", PACTL_SOURCES), None);
    assert_eq!(sink_monitor_source(b"default-sink", b""), None);
    assert_eq!(
        sink_monitor_source(b"s", b"only-one-field\n\n  7   s.monitor extra\r\n"),
        Some("7".to_string())
    );
    assert_eq!(sink_monitor_source(b"s", b"7 s.monitor"), Some("7".to_string()));
}

#[test]
fn sink_name_bytes_are_decoded_lossily() {
    assert_eq!(
        sink_monitor_source(b"a\xffb", "9 a\u{fffd}b.monitor\n".as_bytes()),
        Some("9".to_string())
    );
}

#[test]
fn first_matching_line_wins() {
    assert_eq!(find_source("1 x\n2 x\n", "x"), Some("1".to_string()));
    assert_eq!(find_source("1 y x\n2 x\n", "x"), Some("2".to_string()));
    assert_eq!(find_source("", "x"), None);
}

fn titled(title: &str) -> TrackInfo {
    TrackInfo {
        track_id: "id".to_string(),
        title: Some(title.to_string()),
        ..Default::default()
    }
}

#[test]
fn export_destinations() {
    assert_eq!(
        export_destination("/music", "{title}", &titled("Song 2"), "mp3"),
        "/music/Song 2.mp3"
    );
    assert_eq!(
        export_destination(
            "/home/u/Music/Spotify",
            "{albumArtist} - {album}/{trackNumber} - {title}",
            &titled("Song 3"),
            "opus"
        ),
        "/home/u/Music/Spotify/Unknown Artist - Unknown Album/00 - Song 3.opus"
    );
    assert_eq!(
        export_destination("/music", "{title}", &titled("Mr. Brightside"), "flac"),
        "/music/Mr. Brightside.flac"
    );
    assert_eq!(
        export_destination("/music", "/abs/{title}", &titled("x"), "mp3"),
        "/abs/x.mp3"
    );
    assert_eq!(
        export_destination("/music/", "{title}", &titled("a.b.c"), "mp3/../x"),
        "/music/a.b.c.mp3/../x"
    );
}

#[test]
fn capture_commands() {
    let very_high = AudioConfig::default();
    let lossless = AudioConfig { quality: QualityProfile::Lossless };
    let low = AudioConfig { quality: QualityProfile::Low };
    assert_eq!(capture_file("abc", &very_high), "spotify_rec_abc.opus");
    assert_eq!(capture_file("abc", &lossless), "spotify_rec_abc.flac");
    assert_eq!(
        capture_shell_command(&None, &very_high, "/tmp/a b.opus"),
        "pw-cat --record  --format s16 --rate 44100 --channels 2 - | ffmpeg -y -f s16le -ar 44100 -ac 2 -i pipe:0 -codec:a libopus -b:a 128k \"/tmp/a b.opus\""
    );
    assert_eq!(
        capture_shell_command(&Some("50".to_string()), &low, "/tmp/x\"y.opus"),
        "pw-cat --record --target 50 --format s16 --rate 44100 --channels 2 - | ffmpeg -y -f s16le -ar 44100 -ac 2 -i pipe:0 -codec:a libopus -b:a 24k \"/tmp/x\\\"y.opus\""
    );
    assert_eq!(
        capture_shell_command(&None, &lossless, "/tmp/l.flac"),
        "pw-cat --record  --format s16 --rate 44100 --channels 2 - | ffmpeg -y -f s16le -ar 44100 -ac 2 -i pipe:0 -codec:a flac \"/tmp/l.flac\""
    );
}

#[test]
fn capture_plan_for_a_given_id() {
    let plan = capture_plan_for(
        "/tmp",
        &Some("7".to_string()),
        &AudioConfig { quality: QualityProfile::Normal },
        "0123",
    );
    assert_eq!(plan.temp_path, "/tmp/spotify_rec_0123.opus");
    assert_eq!(
        plan.shell_command,
        "pw-cat --record --target 7 --format s16 --rate 44100 --channels 2 - | ffmpeg -y -f s16le -ar 44100 -ac 2 -i pipe:0 -codec:a libopus -b:a 64k \"/tmp/spotify_rec_0123.opus\""
    );
}

#[test]
fn capture_plans_use_fresh_files() {
    let audio = AudioConfig::default();
    let a = plan_capture("/tmp", &Some("50".to_string()), &audio);
    let b = plan_capture("/tmp", &None, &audio);
    assert!(a.temp_path.starts_with("/tmp/spotify_rec_"));
    assert!(a.temp_path.ends_with(".opus"));
    assert_eq!(a.temp_path.len(), "/tmp/spotify_rec_".len() + 36 + ".opus".len());
    let id = &a.temp_path["/tmp/spotify_rec_".len().."/tmp/spotify_rec_".len() + 36];
    for (i, c) in id.chars().enumerate() {
        if [8, 13, 18, 23].contains(&i) {
            assert_eq!(c, '-');
        } else {
            assert!(c.is_ascii_digit() || ('a'..='f').contains(&c));
        }
    }
    assert_ne!(a.temp_path, b.temp_path);
    assert!(a.shell_command.contains("--target 50"));
    assert!(a.shell_command.ends_with(&format!("{:?}", a.temp_path)));
    assert!(b.shell_command.starts_with("pw-cat --record  --format"));
    let flac = plan_capture("/tmp", &None, &AudioConfig { quality: QualityProfile::Lossless });
    assert!(flac.temp_path.ends_with(".flac"));
    assert!(flac.shell_command.contains("-codec:a flac \""));
}

#[test]
fn rename_fallback_only_across_devices() {
    assert!(rename_needs_copy(Some(18)));
    assert!(!rename_needs_copy(Some(2)));
    assert!(!rename_needs_copy(None));
}
