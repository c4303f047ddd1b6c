# xdsign

The decision and formatting logic of a command-line sign-in tool for a
campus course platform, written in Verus and verified.

- `src/` is the library. `xddcc` decides what the live-stream sub-command
  queries and which arguments are redundant; `signing` decides which
  activities and accounts a sign-in run takes and how each kind of sign-in
  gets its inputs, and formats the messages and the report; `pictures`
  picks the newest picture of a directory; `locations` lists and looks up
  named locations; `progress` holds the progress-bar templates, `template_style` the
  templates `indicatif` accepts and the styles made from them; `records`
  the stored records; `text` trimming, splitting and decimal rendering.
- `app/` is the program around it: argument parsing, logging, the sign-in
  client, the SQLite store and the terminal.
- `tests/` runs the library on concrete values.

## Building `app/`

`app/` calls the sign-in client crates `cxlib`, `x_l4rs`, `xdsign_data`,
`xddcc` and `wnewtype`, which the package registry used here does not
offer, so `Cargo.toml` cannot name them and `app/` does not build on its
own. The rest of `app/` uses `clap`, `env_logger`, `indicatif`,
`indicatif-log-bridge`, `log`, `reqwest` and `sqlite`, which are named.

- The shell-completion sub-command, behind a cargo feature, is left out:
  the manifest holds no feature table.
- The SQLite store (`app/utils/sql.rs`) takes the configuration directory
  as an argument of `DataBase::new` and `DataBase::delete_account`.
- The text form of a `--pos` position is parsed by the sign-in client
  (`Address::parse_str` there) and converted to the library's `Address`.
