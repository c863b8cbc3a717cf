# rskm

A manager for SSH keys kept under one home directory (`RSKM_HOME`, by default
`~/.rskm`): `init`, `create`, `rename`, `delete`, `list`, `show`, `add`,
`remove` and `destroy`.

Layout:

- `src/` is the verified library.  `cli.rs` holds the commands as a machine:
  `Execution::start` and `Execution::step` decide, and return requests
  (`Action`) that the caller performs and answers (`Event`).  `laws.rs` states
  and proves what holds of every run.  `listing.rs` selects and orders the
  keys to list, `config.rs` the settings, `keys/` the key types, `errors.rs`
  the errors and their messages, `text.rs` and `paths.rs` the string and
  path helpers.
- `app/` is the command-line front: clap, the environment, the disk, the
  processes, the prompt and TOML.
- `tests/` drives the machine against a disk kept in memory.
