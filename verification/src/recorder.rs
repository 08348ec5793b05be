//! What the capture and export steps compute: the audio source to capture
//! from, the capture command, the temporary file, and where a finished
//! capture is filed.

use vstd::prelude::*;
use vstd::string::*;
use vstd::utf8::{decode_utf8, valid_utf8};
use crate::text::{infix_of_concat, has_infix, has_prefix, occurs_at, str_eq, trim, trimmed, words, words_between};
use crate::config::{AudioConfig, QualityProfile};
use crate::text::{nat_decimal, u64_to_decimal};
use crate::track::{formatted_path, format_path, TrackInfo, TrackView};

verus! {

/// A capture that has ended: its file and the track it holds.
#[derive(Debug)]
pub struct FinishedRecording {
    pub temp_path: String,
    pub track: TrackInfo,
}

/// What `String::from_utf8_lossy` makes of `bytes`.
pub uninterp spec fn lossy_utf8(bytes: Seq<u8>) -> Seq<char>;

/// `String::from_utf8_lossy`: decodes `bytes` as UTF-8, putting U+FFFD in
/// place of each invalid sequence. Claimed: the result is a function of the
/// bytes alone, and valid UTF-8 decodes without replacement.
#[verifier::external_body]
fn decode_lossy(bytes: &[u8]) -> (s: String)
    ensures
        s@ == lossy_utf8(bytes@),
        valid_utf8(bytes@) ==> s@ == decode_utf8(bytes@),
{
    String::from_utf8_lossy(bytes).into_owned()
}

/// The length of the first line of `s`: the characters before the first
/// line feed, or all of `s` when it has none.
pub open spec fn line_len(s: Seq<char>) -> nat
    decreases s.len(),
{
    if s.len() == 0 || s[0] == '\n' {
        0
    } else {
        1 + line_len(s.drop_first())
    }
}

/// A first line is no longer than its text.
pub proof fn line_len_bound(s: Seq<char>)
    ensures
        line_len(s) <= s.len(),
    decreases s.len(),
{
    if s.len() > 0 && s[0] != '\n' {
        line_len_bound(s.drop_first());
    }
}

/// The first field of the first line of `text` whose second field is `name`,
/// fields being separated by whitespace (a line feed ends a line; a carriage
/// return before it is whitespace). This is the source-id column of
/// `pactl list short sources` for the source called `name`.
pub open spec fn source_with_name(text: Seq<char>, name: Seq<char>) -> Option<Seq<char>>
    decreases text.len(),
{
    if text.len() == 0 {
        None
    } else {
        proof {
            line_len_bound(text);
        }
        let k = line_len(text) as int;
        let w = words(text.take(k));
        if w.len() >= 2 && w[1] == name {
            Some(w[0])
        } else if k < text.len() {
            source_with_name(text.skip(k + 1), name)
        } else {
            None
        }
    }
}

/// The monitor source of the default sink: the sink's name is the output of
/// `pactl get-default-sink` without surrounding whitespace; its monitor is
/// called that name followed by ".monitor", and is looked up in the output of
/// `pactl list short sources` (see `source_with_name`).
pub open spec fn default_sink_monitor(sink_output: Seq<u8>, sources_output: Seq<u8>) -> Option<
    Seq<char>,
> {
    source_with_name(
        lossy_utf8(sources_output),
        trimmed(lossy_utf8(sink_output)) + ".monitor"@,
    )
}

proof fn line_len_of_run(s: Seq<char>, i: int, j: int)
    requires
        0 <= i <= j <= s.len(),
        forall|k: int| i <= k < j ==> #[trigger] s[k] != '\n',
        j == s.len() || s[j] == '\n',
    ensures
        line_len(s.subrange(i, s.len() as int)) == j - i,
    decreases j - i,
{
    let t = s.subrange(i, s.len() as int);
    if i < j {
        assert(t.drop_first() =~= s.subrange(i + 1, s.len() as int));
        line_len_of_run(s, i + 1, j);
    } else if j < s.len() {
        assert(t[0] == s[j]);
    }
}

/// The id of the source named `name` in `text` (see `source_with_name`).
pub fn find_source(text: &str, name: &str) -> (r: Option<String>)
    ensures
        match r {
            Some(id) => source_with_name(text@, name@) == Some(id@),
            None => source_with_name(text@, name@) is None,
        },
{
    let n = text.unicode_len();
    let mut pos: usize = 0;
    assert(text@.subrange(0, n as int) =~= text@);
    while pos < n
        invariant
            n == text@.len(),
            pos <= n,
            source_with_name(text@, name@) == source_with_name(
                text@.subrange(pos as int, n as int),
                name@,
            ),
        decreases n - pos,
    {
        let ghost rest = text@.subrange(pos as int, n as int);
        let mut end: usize = pos;
        while end < n && text.get_char(end) != '\n'
            invariant
                pos <= end <= n,
                n == text@.len(),
                forall|k: int| pos <= k < end ==> #[trigger] text@[k] != '\n',
            decreases n - end,
        {
            end = end + 1;
        }
        proof {
            line_len_of_run(text@, pos as int, end as int);
            assert(rest.take(end - pos) =~= text@.subrange(pos as int, end as int));
            if end < n {
                assert(rest.skip(end - pos + 1) =~= text@.subrange(end + 1, n as int));
            }
        }
        let fields = words_between(text, pos, end);
        proof {
            assert(fields@.len() == fields@.map_values(|x: String| x@).len());
        }
        if fields.len() >= 2 && str_eq(fields[1].as_str(), name) {
            proof {
                assert(fields@.map_values(|x: String| x@)[1] == fields@[1]@);
                assert(fields@.map_values(|x: String| x@)[0] == fields@[0]@);
            }
            return Some(fields[0].clone());
        }
        proof {
            if fields@.len() >= 2 {
                assert(fields@.map_values(|x: String| x@)[1] == fields@[1]@);
            }
        }
        if end >= n {
            return None;
        }
        pos = end + 1;
    }
    None
}

/// The monitor source of the default sink, from the outputs of
/// `pactl get-default-sink` and `pactl list short sources` (see
/// `default_sink_monitor`).
pub fn sink_monitor_source(sink_output: &[u8], sources_output: &[u8]) -> (r: Option<String>)
    ensures
        match r {
            Some(id) => default_sink_monitor(sink_output@, sources_output@) == Some(id@),
            None => default_sink_monitor(sink_output@, sources_output@) is None,
        },
{
    let sink_text = decode_lossy(sink_output);
    let mut monitor_name = trim(sink_text.as_str());
    monitor_name.append(".monitor");
    let sources = decode_lossy(sources_output);
    find_source(sources.as_str(), monitor_name.as_str())
}

/// What `Path::join` makes of `base` and `rel`, read back as text.
pub uninterp spec fn joined_path(base: Seq<char>, rel: Seq<char>) -> Seq<char>;

/// `Path::join`: `rel` appended to `base` as a path component (or `rel`
/// alone when it is absolute), read back as text. Claimed: the result is a
/// function of the two texts alone.
#[verifier::external_body]
fn join_path(base: &str, rel: &str) -> (p: String)
    ensures
        p@ == joined_path(base@, rel@),
{
    std::path::Path::new(base).join(rel).to_string_lossy().into_owned()
}

/// What `format!("{:?}", Path::new(path))` writes: the path quoted and
/// escaped as `Debug` writes it.
pub uninterp spec fn debug_quoted_path(path: Seq<char>) -> Seq<char>;

/// `Debug` for a `Path`: the path quoted and escaped. Claimed: the result is
/// a function of the text alone.
#[verifier::external_body]
fn quote_path(path: &str) -> (q: String)
    ensures
        q@ == debug_quoted_path(path@),
{
    format!("{:?}", std::path::Path::new(path))
}

/// Whether `c` is a lowercase hexadecimal digit.
pub open spec fn is_lower_hex(c: char) -> bool {
    ('0' <= c && c <= '9') || ('a' <= c && c <= 'f')
}

/// The hyphenated form of a UUID: 36 characters, hyphens at positions 8,
/// 13, 18 and 23, lowercase hexadecimal digits elsewhere.
pub open spec fn is_hyphenated_uuid(s: Seq<char>) -> bool {
    &&& s.len() == 36
    &&& forall|i: int|
        0 <= i < 36 ==> if i == 8 || i == 13 || i == 18 || i == 23 {
            s[i] == '-'
        } else {
            is_lower_hex(#[trigger] s[i])
        }
}

/// A random (version 4, RFC 4122 variant) UUID in hyphenated form: the
/// version digit (position 14) is '4' and the variant digit (position 19)
/// is one of '8', '9', 'a', 'b'. The nil UUID is not one.
pub open spec fn is_v4_uuid(s: Seq<char>) -> bool {
    &&& is_hyphenated_uuid(s)
    &&& s[14] == '4'
    &&& (s[19] == '8' || s[19] == '9' || s[19] == 'a' || s[19] == 'b')
}

/// `uuid::Uuid::new_v4().to_string()`: a random version-4 UUID in its
/// hyphenated lowercase form (`Display` writes `LowerHex` of the hyphenated
/// form; `new_v4` masks in the version bits 0100 and the variant bits 10).
/// Claimed: that form; nothing is claimed of which UUID comes back, and two
/// calls may differ.
#[verifier::external_body]
fn random_uuid() -> (id: String)
    ensures
        is_v4_uuid(id@),
{
    uuid::Uuid::new_v4().to_string()
}

/// Where a finished capture of `track` is filed: the track's path from
/// `pattern` (see `formatted_path`), followed by a dot and `extension`,
/// under `music_dir`.
pub open spec fn export_path(
    music_dir: Seq<char>,
    pattern: Seq<char>,
    track: TrackView,
    extension: Seq<char>,
) -> Seq<char> {
    joined_path(music_dir, formatted_path(pattern, track) + "."@ + extension)
}

/// The destination of a finished capture of `track` (see `export_path`).
pub fn export_destination(music_dir: &str, pattern: &str, track: &TrackInfo, extension: &str) -> (p:
    String)
    ensures
        p@ == export_path(music_dir@, pattern@, track@, extension@),
{
    let mut relative = format_path(pattern, track);
    relative.append(".");
    relative.append(extension);
    join_path(music_dir, relative.as_str())
}

/// The name of the temporary file of a capture with the given id, with the
/// extension of the configured container format.
pub open spec fn capture_file_name(id: Seq<char>, audio: AudioConfig) -> Seq<char> {
    "spotify_rec_"@ + id + "."@ + audio.quality.format_name()
}

/// The temporary file name for a capture with the given id (see
/// `capture_file_name`).
pub fn capture_file(id: &str, audio: &AudioConfig) -> (name: String)
    ensures
        name@ == capture_file_name(id@, *audio),
{
    let mut name = String::from_str("spotify_rec_");
    name.append(id);
    name.append(".");
    name.append(audio.format());
    name
}

/// The start of the capture command: the recorder, reading from `target`
/// when the monitor source is known.
pub open spec fn capture_head(target: Option<Seq<char>>) -> Seq<char> {
    "pw-cat --record "@ + (match target {
        Some(node) => "--target "@ + node,
        None => Seq::<char>::empty(),
    }) + " --format s16 --rate "@
}

/// The shell command that captures the default output (from `target`, when
/// the monitor source is known) at the configured sample rate and channel
/// count, and encodes it with the configured encoder (at the configured bit
/// rate, where the quality has one) into `output`.
pub open spec fn capture_command(
    target: Option<Seq<char>>,
    audio: AudioConfig,
    output: Seq<char>,
) -> Seq<char> {
    let rate = nat_decimal(audio.quality.rate_hz() as nat);
    let channels = nat_decimal(audio.quality.channel_count() as nat);
    capture_head(target) + rate + " --channels "@ + channels
        + " - | ffmpeg -y -f s16le -ar "@ + rate + " -ac "@ + channels
        + " -i pipe:0 -codec:a "@ + audio.quality.encoder_name() + " "@ + (
    match audio.quality.bitrate_kbps() {
        Some(kbps) => "-b:a "@ + nat_decimal(kbps as nat) + "k "@,
        None => Seq::<char>::empty(),
    }) + debug_quoted_path(output)
}

/// The capture reads from the monitor source whenever it is known, whatever
/// the quality: the command starts with `pw-cat --record --target <node>`;
/// without a known source it starts with `pw-cat --record` and no target.
/// Only the target decides how the command starts.
pub proof fn capture_reads_from_target(
    target: Option<Seq<char>>,
    audio: AudioConfig,
    other_audio: AudioConfig,
    output: Seq<char>,
    other_output: Seq<char>,
)
    ensures
        target matches Some(n) ==> has_prefix(
            capture_command(target, audio, output),
            "pw-cat --record --target "@ + n + " --format "@,
        ),
        target matches Some(n) ==> has_infix(
            capture_command(target, audio, output),
            "--target "@ + n,
        ),
        target is None ==> has_prefix(
            capture_command(target, audio, output),
            "pw-cat --record  --format "@,
        ),
        capture_command(target, audio, output).subrange(0, capture_head(target).len() as int)
            == capture_command(target, other_audio, other_output).subrange(
            0,
            capture_head(target).len() as int,
        ),
{
    reveal_strlit("pw-cat --record ");
    reveal_strlit("pw-cat --record --target ");
    reveal_strlit("--target ");
    reveal_strlit(" --format ");
    reveal_strlit(" --format s16 --rate ");
    reveal_strlit("pw-cat --record  --format ");
    let cmd = capture_command(target, audio, output);
    let other = capture_command(target, other_audio, other_output);
    let head = capture_head(target);
    assert(cmd.subrange(0, head.len() as int) =~= head);
    assert(other.subrange(0, head.len() as int) =~= head);
    match target {
        Some(n) => {
            let want = "pw-cat --record --target "@ + n + " --format "@;
            assert(head.subrange(0, want.len() as int) =~= want);
            assert(cmd.subrange(0, want.len() as int) =~= want);
            let t = "--target "@ + n;
            assert(cmd.subrange(16, 16 + t.len() as int) =~= t);
            assert(occurs_at(cmd, t, 16));
        },
        None => {
            let want = "pw-cat --record  --format "@;
            assert(head.subrange(0, want.len() as int) =~= want);
            assert(cmd.subrange(0, want.len() as int) =~= want);
        },
    }
}

/// The capture records and encodes as the quality asks: 44.1 kHz stereo,
/// into FLAC for lossless and into Opus at 24, 64, 96 or 128 kbit/s for the
/// low, normal, high and very high profiles.
pub proof fn capture_encodes_as_configured(
    target: Option<Seq<char>>,
    audio: AudioConfig,
    output: Seq<char>,
)
    ensures
        has_infix(
            capture_command(target, audio, output),
            " - | ffmpeg -y -f s16le -ar 44100 -ac 2 -i pipe:0 -codec:a "@ + match audio.quality {
                QualityProfile::Low => "libopus -b:a 24k "@,
                QualityProfile::Normal => "libopus -b:a 64k "@,
                QualityProfile::High => "libopus -b:a 96k "@,
                QualityProfile::VeryHigh => "libopus -b:a 128k "@,
                QualityProfile::Lossless => "flac "@,
            },
        ),
        capture_command(target, audio, output).subrange(
            0,
            (capture_head(target).len() + 18) as int,
        ) == capture_head(target) + "44100 --channels 2"@,
{
    reveal_strlit(" - | ffmpeg -y -f s16le -ar 44100 -ac 2 -i pipe:0 -codec:a ");
    reveal_strlit(" - | ffmpeg -y -f s16le -ar ");
    reveal_strlit(" -ac ");
    reveal_strlit(" -i pipe:0 -codec:a ");
    reveal_strlit(" --channels ");
    reveal_strlit("44100 --channels 2");
    reveal_strlit("libopus -b:a 24k ");
    reveal_strlit("libopus -b:a 64k ");
    reveal_strlit("libopus -b:a 96k ");
    reveal_strlit("libopus -b:a 128k ");
    reveal_strlit("flac ");
    reveal_strlit("libopus");
    reveal_strlit("flac");
    reveal_strlit(" ");
    reveal_strlit("-b:a ");
    reveal_strlit("k ");
    let rate = nat_decimal(44100);
    let channels = nat_decimal(2);
    assert(rate =~= seq!['4', '4', '1', '0', '0']) by {
        reveal_with_fuel(nat_decimal, 6);
    }
    assert(channels =~= seq!['2']);
    let bitrate = match audio.quality.bitrate_kbps() {
        Some(kbps) => "-b:a "@ + nat_decimal(kbps as nat) + "k "@,
        None => Seq::<char>::empty(),
    };
    assert(nat_decimal(24) =~= seq!['2', '4']) by {
        reveal_with_fuel(nat_decimal, 3);
    }
    assert(nat_decimal(64) =~= seq!['6', '4']) by {
        reveal_with_fuel(nat_decimal, 3);
    }
    assert(nat_decimal(96) =~= seq!['9', '6']) by {
        reveal_with_fuel(nat_decimal, 3);
    }
    assert(nat_decimal(128) =~= seq!['1', '2', '8']) by {
        reveal_with_fuel(nat_decimal, 4);
    }
    let tail = audio.quality.encoder_name() + " "@ + bitrate;
    let want_tail = match audio.quality {
        QualityProfile::Low => "libopus -b:a 24k "@,
        QualityProfile::Normal => "libopus -b:a 64k "@,
        QualityProfile::High => "libopus -b:a 96k "@,
        QualityProfile::VeryHigh => "libopus -b:a 128k "@,
        QualityProfile::Lossless => "flac "@,
    };
    assert(tail =~= want_tail);
    let m = " - | ffmpeg -y -f s16le -ar "@ + rate + " -ac "@ + channels + " -i pipe:0 -codec:a "@
        + tail;
    assert(m =~= " - | ffmpeg -y -f s16le -ar 44100 -ac 2 -i pipe:0 -codec:a "@ + want_tail);
    let a = capture_head(target) + rate + " --channels "@ + channels;
    let cmd = capture_command(target, audio, output);
    assert(cmd =~= a + m + debug_quoted_path(output));
    infix_of_concat(a, m, debug_quoted_path(output));
    assert(cmd.subrange(0, (capture_head(target).len() + 18) as int) =~= capture_head(target)
        + "44100 --channels 2"@);
}

/// The capture command for `target`, `audio` and `output` (see
/// `capture_command`).
pub fn capture_shell_command(target: &Option<String>, audio: &AudioConfig, output: &str) -> (cmd:
    String)
    ensures
        cmd@ == capture_command(
            match target {
                Some(t) => Some(t@),
                None => None,
            },
            *audio,
            output@,
        ),
{
    let rate = u64_to_decimal(audio.sample_rate() as u64);
    let channels = u64_to_decimal(audio.channels() as u64);
    let mut cmd = String::from_str("pw-cat --record ");
    match target {
        Some(node) => {
            cmd.append("--target ");
            cmd.append(node.as_str());
        },
        None => {},
    }
    cmd.append(" --format s16 --rate ");
    cmd.append(rate.as_str());
    cmd.append(" --channels ");
    cmd.append(channels.as_str());
    cmd.append(" - | ffmpeg -y -f s16le -ar ");
    cmd.append(rate.as_str());
    cmd.append(" -ac ");
    cmd.append(channels.as_str());
    cmd.append(" -i pipe:0 -codec:a ");
    cmd.append(audio.encoder());
    cmd.append(" ");
    match audio.bitrate() {
        Some(kbps) => {
            let digits = u64_to_decimal(kbps as u64);
            cmd.append("-b:a ");
            cmd.append(digits.as_str());
            cmd.append("k ");
        },
        None => {},
    }
    let quoted = quote_path(output);
    cmd.append(quoted.as_str());
    cmd
}

/// How a capture is run: its temporary file and the shell command that
/// writes it.
#[derive(Debug)]
pub struct CapturePlan {
    pub temp_path: String,
    pub shell_command: String,
}

/// The plan of a capture with the given id: the file `capture_file_name`
/// under `temp_dir`, written by `capture_command`.
pub open spec fn capture_plan_of(
    temp_dir: Seq<char>,
    target: Option<Seq<char>>,
    audio: AudioConfig,
    id: Seq<char>,
) -> (Seq<char>, Seq<char>) {
    let temp_path = joined_path(temp_dir, capture_file_name(id, audio));
    (temp_path, capture_command(target, audio, temp_path))
}

/// A capture's temporary file is named "spotify_rec_", its id, a dot and the
/// configured container format ("flac" for lossless, "opus" otherwise), so
/// captures with different ids of one length get different names; and the
/// planned command writes the planned file (it ends with its quoted path).
pub proof fn capture_files_follow_their_ids(
    temp_dir: Seq<char>,
    target: Option<Seq<char>>,
    audio: AudioConfig,
    id: Seq<char>,
    other_id: Seq<char>,
)
    ensures
        capture_file_name(id, audio) == "spotify_rec_"@ + id + "."@ + (
        if audio.quality == QualityProfile::Lossless {
            "flac"@
        } else {
            "opus"@
        }),
        id.len() == other_id.len() && id != other_id ==> capture_file_name(id, audio)
            != capture_file_name(other_id, audio),
        capture_plan_of(temp_dir, target, audio, id).1.subrange(
            capture_plan_of(temp_dir, target, audio, id).1.len() - debug_quoted_path(
                capture_plan_of(temp_dir, target, audio, id).0,
            ).len(),
            capture_plan_of(temp_dir, target, audio, id).1.len() as int,
        ) == debug_quoted_path(capture_plan_of(temp_dir, target, audio, id).0),
{
    reveal_strlit("spotify_rec_");
    let a = capture_file_name(id, audio);
    let b = capture_file_name(other_id, audio);
    if id.len() == other_id.len() && a == b {
        assert(a.subrange(12, 12 + id.len() as int) =~= id);
        assert(b.subrange(12, 12 + id.len() as int) =~= other_id);
    }
    let plan = capture_plan_of(temp_dir, target, audio, id);
    let q = debug_quoted_path(plan.0);
    let cmd = plan.1;
    assert(cmd.subrange(cmd.len() - q.len(), cmd.len() as int) =~= q);
}

/// Plans the capture with id `id` (see `capture_plan_of`).
pub fn capture_plan_for(
    temp_dir: &str,
    target: &Option<String>,
    audio: &AudioConfig,
    id: &str,
) -> (plan: CapturePlan)
    ensures
        (plan.temp_path@, plan.shell_command@) == capture_plan_of(
            temp_dir@,
            match target {
                Some(t) => Some(t@),
                None => None,
            },
            *audio,
            id@,
        ),
{
    let name = capture_file(id, audio);
    let temp_path = join_path(temp_dir, name.as_str());
    let shell_command = capture_shell_command(target, audio, temp_path.as_str());
    CapturePlan { temp_path, shell_command }
}

/// Plans the capture of a track into a fresh temporary file under
/// `temp_dir`, capturing from `target` when the monitor source is known and
/// encoding as `audio` says: the plan for a random version-4 UUID (see
/// `capture_plan_of`).
pub fn plan_capture(temp_dir: &str, target: &Option<String>, audio: &AudioConfig) -> (plan:
    CapturePlan)
    ensures
        exists|id: Seq<char>|
            #![trigger is_v4_uuid(id)]
            is_v4_uuid(id) && (plan.temp_path@, plan.shell_command@) == capture_plan_of(
                temp_dir@,
                match target {
                    Some(t) => Some(t@),
                    None => None,
                },
                *audio,
                id,
            ),
{
    let id = random_uuid();
    capture_plan_for(temp_dir, target, audio, id.as_str())
}

/// The OS error of a rename across file systems (`EXDEV` on Linux).
pub const CROSS_DEVICE_ERROR: i32 = 18;

/// Whether a failed rename should fall back to copying and deleting: when it
/// failed because source and destination lie on different file systems.
pub fn rename_needs_copy(os_error: Option<i32>) -> (b: bool)
    ensures
        b == (os_error == Some(CROSS_DEVICE_ERROR)),
{
    match os_error {
        Some(code) => code == CROSS_DEVICE_ERROR,
        None => false,
    }
}

} // verus!
