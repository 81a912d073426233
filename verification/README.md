# rs_clean

Finds Cargo, Go, Gradle, Node.js, Flutter, Python and Maven projects below a
directory, shows how much space their build artifacts take, asks which to clean,
and cleans them (running `cargo clean`, `mvn clean --offline`, … or removing the
artifact directories of Node.js and Python projects).

- `src/` is the library, verified with Verus: the cleaner table and what each
  cleaner removes (`cmd`, `constant`), path and name safety checks (`utils`), the
  merge of command line, configuration file and defaults (`config`), the scan
  decisions and the breadth-first sizing state machine (`scan`), the interactive
  selection as a state machine (`select`) and the accounting of a run (`report`).
- `app/` is the program: argument parsing (clap), the configuration file (serde,
  toml, serde_json), the file system walks, the cleaning processes (tokio), and the
  terminal (dialoguer, indicatif, colored). It hands the library plain values.
- `tests/` exercise the library on concrete inputs.
