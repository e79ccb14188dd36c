# claudegauge

A small always-on-top desktop widget that shows the token usage of the
current five-hour window, read locally through `ccusage blocks --json`.

- `src/` is the verified library (Verus):
  - `config.rs`: the settings, their defaults, and the edits the widget makes
    (theme, limit, position, polling interval), each proved to touch only its
    own field; where the settings file lives.
  - `usage.rs`: the mapping from `ccusage` blocks to the display state. The
    exact token count is always shown; a percentage exists only when a
    positive limit is configured, and the reset countdown is never negative.
  - `cli.rs`: `config set <limit|poll> <value>`, human-friendly numbers, and
    the window commands (`start`, `stop`, `toggle`, `hide`, ...).
  - `text.rs`: shared text operations (equality, trimming, decimal reading).
- `app/` is the desktop program around it: the Tauri window and tray, the
  settings file, spawning `ccusage`, and the fractional values (percentages,
  burn rates, bar thresholds) that the library keeps as exact integers or
  leaves to the program.
- `tests/` exercises the library on concrete values.
