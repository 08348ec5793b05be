# taped

Records the tracks that Spotify plays. The service follows the player over
D-Bus (MPRIS), captures each track from the default audio sink with
`pw-cat | ffmpeg`, tags the file and moves it into a music library under a
path built from a pattern such as
`{albumArtist} - {album}/{trackNumber} - {title}`.

## Layout

- `src/` — the verified library (Verus):
  - `text.rs`: string primitives with specifications (prefix, infix,
    replacement, decimal numbers, whitespace, fields, joining);
  - `track.rs`: track metadata, reading it from the player's metadata,
    advertisement detection, file naming and tag values;
  - `config.rs`: audio quality profiles;
  - `watchdog.rs`: the recorder's state machine (which capture to start,
    export or throw away on each player event) and its laws;
  - `service.rs`: the control object published on the bus and the variant
    of the state machine that obeys a recording switch;
  - `recorder.rs`: the capture command and temporary file, the search for
    the default sink's monitor source, and export destinations.
- `app/` — the program around it: command line, D-Bus, processes, files,
  tagging and the event loops that carry out the library's decisions.
- `tests/` — tests of the library.
