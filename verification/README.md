# nrr

A fast runner for the scripts of npm packages (`nrr dev`, `nrr exec eslint`,
`nrr list`), with its decisions written and proved in Verus.

- `src/` is the verified library:
  - `util` — decimal formatting, reading the nesting level, exit codes;
  - `style` — terminal styles (through owo-colors);
  - `package_json` — the manifest model and the package heading;
  - `suggest` — spelling suggestions (through strsim's Jaro similarity);
  - `report` — the warnings and errors the runner prints;
  - `run` — argument quoting (through shlex) and the commands and environment
    of each lifecycle step;
  - `runner` — the run of a script and its hooks as a state machine;
  - `list` — the script listing (through unicode-width);
  - `complete` — the scripts offered for shell completion;
  - `cli` — the command line and what it asks for;
  - `env_file` — variables read from an environment file.
- `app/` is the program around it: argument parsing, reading manifests and
  environment files, terminal detection, signals, and spawning processes.
- `tests/` runs the library on concrete values.
