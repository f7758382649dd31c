# arnes-host-broker

The narrow host broker between the desktop shell and the `RHODIZ-Arnes` WSL2 runtime.
It builds the only host commands the shell may run (`wsl.exe`, never a shell), reads
their outcomes and reports the runtime's status; starting and stopping touch only the
runtime's systemd unit.

- `src/` is the library, written and proved with Verus:
  `commands` (the fixed host commands), `text` (trimming and ASCII-case matching),
  `status` (status values and the `systemctl is-active` parser), `inspect` (the
  inspection as a step function over probe outcomes, its driver and its laws),
  `runtime` (status, start and stop for a host runner), `capture` (bounded output and
  the outcome of a finished process), `errors`.
- `app/` runs the commands as processes (with a timeout from `wait-timeout`) and prints
  the status as JSON through serde.
- `tests/` runs the library against scripted runners.
