# kommandozeile

Helpers for command-line programs: verbosity levels and the log filter
directives they stand for, the `-v`/`-q` and `--color`/`--no-color` flags,
file arguments where `-` means a standard stream, and setup of argument
parsing, error reports and tracing.

- `src/` is the verified library (Verus): `verbosity` (levels and filter
  directives), `verbose` (the flag counts and the ladder of levels they move
  along, with its laws), `color` (the color flags and the choice they make),
  `setup` (backtrace levels).
- `app/` is ordinary Rust around it: reading the command line and `@file`
  arguments, parsing with clap, detecting and forcing terminal colors, file
  arguments, installing the color-eyre hooks and the tracing subscriber.
- `tests/` runs the library on concrete values.
