# termos

A local SSH connection manager with a terminal user interface.

- `src/` is the verified library: the connection and quick-command store
  (`storage.rs`), text helpers with ASCII case folding, Unicode trimming and
  port parsing (`text.rs`), the `ssh` command lines and password hand-off
  (`ssh.rs`), the `quick-command` subcommand dispatch (`cli.rs`), and the
  screens as state machines (`tui/`: form editing, the two wizards, the
  dashboard, the quick-command manager, the manual, layout arithmetic).
- `app/` is the program around it: command-line parsing, the configuration
  file `~/.config/termos/connections.json`, drawing with crossterm, and
  running `ssh`.
- `tests/` exercise the library on concrete values.
