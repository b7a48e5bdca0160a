# hotki

The window placement and smoketest logic of Hotki, written in Rust and verified with
[Verus](https://github.com/verus-lang/verus).

- `src/place/` resolves grid cells, drives a window into its cell through an accessibility
  adapter, and counts the attempts. The pipeline's strategy is a pure function of the answers
  that it receives (`engine.rs`); what follows from it stands in `engine_laws.rs`. `run.rs` says
  what comes before and after a placement: access, finding the window, restoring it, raising it. A
  scripted adapter (`adapter.rs`) answers deterministically.
- `src/geom.rs`, `screen.rs`, `window.rs`, `wait.rs`, `raise.rs`, `status.rs`, `pick.rs` and
  `pattern.rs` hold geometry in fixed-point units (1024 per point), screens, window lists and how
  windows are found and raised.
- `src/relaykey.rs` keeps track of relayed keys, so that every key that goes down comes up.
- `src/permissions.rs` holds the permissions of the process.
- `src/smoketest/` holds the test harness: plans of cases, the bridge to a running app, waits with
  deadlines, checks of windows, and runs of many tests. What waits for the outside world is a
  state machine: it is told an event and says what to do next.
- `app/` is the program around the library: arguments, sockets, processes, files and the clock. It
  carries out what the state machines ask for: `ax.rs` reaches windows through the accessibility
  layer, `keys.rs` posts keys, `helper.rs` shows helper windows, and `subtests.rs`, `placement.rs`,
  `world.rs` and `typed.rs` run the single tests.
- `tests/` runs the library on concrete values.

Times are nanoseconds of a monotonic clock unless a name ends in `_ms`. The library reads no clock,
opens no file and sleeps nowhere.
