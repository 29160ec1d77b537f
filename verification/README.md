# vollibrespot

A Spotify Connect daemon that tells a media player over UDP what it plays, and
takes playback commands from it.

- `src/` is the library: every decision of the daemon, verified with Verus.
  - `reconnect`, `supervisor`: back-off, and the round of discovering
    credentials, connecting and serving a session.
  - `pipe_loop`, `meta_pipe`, `messages`: the conversation with the media player.
  - `metadata`, `ident`: what is told about a track or an episode, and the lookups
    it takes.
  - `cli`, `console`: the command line, the look of the log, the list of backends.
  - `options`, `json`, `text`, `time`: what is known of `getopts`, `serde_json` and
    the standard library.
- `app/` is the program around it: sockets, sessions, clocks to sleep by, and the
  volume percentage, which is a floating-point number.
- `tests/` runs the library on concrete values.
