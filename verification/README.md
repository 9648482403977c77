# block_chaos

Runs block-device fault experiments: measure a device with fio, inject a
fault (a device-mapper delay, a full disk, or a read-only remount), measure
again, and remove the fault.

- `src/` is the verified library. It decides which commands are run and in
  which order, how their outcomes are read, and how an experiment proceeds;
  each procedure is a state machine that asks for one effect at a time.
  - `text`: decimal rendering, Unicode whitespace trimming, lossy decoding.
  - `command`: commands, effects, outcomes, and the procedure protocol.
  - `domain`: configuration, the experiment's course, results, and the
    adapter interface.
  - `implementation`: the three fault adapters and shared mount commands.
- `app/` is the command-line program: it spawns the commands, touches the
  file system, parses fio's JSON report and prints the measurements.
- `tests/` exercises the library on concrete values.
