# ext_host

Supervision of a Node extension host process, verified with Verus.

`src/` decides, on plain values:

- `lifecycle`: the states of a host and their names.
- `model`: the supervisor as a value, and what each operation makes of it.
- `supervisor`: the supervisor itself: starts, stops, restarts, crashes and crash loops, events of
  the host, status reports.
- `session`: the values that go in and out of the supervisor.
- `launch`: the steps from nothing to a listening host, one type per step.
- `port`: the line in which a host tells its port.
- `failure`: the errors of a start, their wording and the states that they lead to.
- `stderr`: the last lines of the host's standard error.
- `manifest`, `info`: what the workbench is told of extensions and of the platform.
- `json`, `paths`, `text`: JSON through `serde_json`, paths through `dunce`, text by hand.
- `laws`: what holds over several operations.

`app/` runs the process: it reads clocks, files and pipes, hands the library what it found, and
does what the library answers. Times are nanoseconds of a monotonic clock.

`tests/` runs the library on concrete values.
