# covermint

Covermint shows the cover art of the playing MPRIS player as a small
layer-shell surface pinned to the desktop, with optional metadata bands and
a synced-lyrics panel.

The crate is in two parts:

- `src/` is the library, verified with Verus: configuration (defaults,
  `config.toml` overrides, command-line flags), metadata templates and their
  reveal order, LRC parsing and lyrics lookup decisions, player and monitor
  selection, the artwork cache policy, window layout arithmetic, the playback
  clock and the refresh loop's decisions. Each public function carries a
  contract; the `law_*` proof functions state properties that span several
  functions.
- `app/` is the program around it: GTK4 and gtk4-layer-shell widgets, D-Bus
  (zbus), HTTP (ureq, reqwest), files, timers, and the animations, which
  work in floating point.

`tests/` runs the library on concrete values.
