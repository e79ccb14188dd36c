//! The configuration: its defaults and the edits the gauge makes to it.

use vstd::prelude::*;

verus! {

/// Where the widget stands on the screen, in physical pixels.
#[derive(Clone, Copy, Debug, PartialEq, Eq, Structural)]
pub struct Position {
    pub x: i32,
    pub y: i32,
}

/// The settings of the gauge.
///
/// `limit` is the user's token cap for the five-hour window: `None` means no
/// percentage is shown (the cap is never guessed), `Some(n)` shows `%` against `n`.
#[derive(Clone, Debug)]
pub struct Config {
    pub poll_interval: u64,
    pub mode: String,
    pub theme: String,
    pub position: Position,
    pub limit: Option<u64>,
}

/// Seconds between polls unless configured otherwise.
pub open spec fn spec_default_poll() -> u64 {
    30
}

/// Where the widget stands before it has ever been moved.
pub open spec fn spec_default_position() -> Position {
    Position { x: 1600, y: 40 }
}

/// Default polling interval in seconds.
pub fn default_poll() -> (r: u64)
    ensures
        r == spec_default_poll(),
{
    30
}

/// Default display mode, `"full"`.
pub fn default_mode() -> (r: String)
    ensures
        r@ == "full"@,
{
    String::from_str("full")
}

/// Default theme, `"dark"`.
pub fn default_theme() -> (r: String)
    ensures
        r@ == "dark"@,
{
    String::from_str("dark")
}

/// Default window position.
pub fn default_position() -> (r: Position)
    ensures
        r == spec_default_position(),
{
    Position { x: 1600, y: 40 }
}

impl Config {
    /// The configuration written on first run.
    pub open spec fn is_default(self) -> bool {
        &&& self.poll_interval == spec_default_poll()
        &&& self.mode@ == "full"@
        &&& self.theme@ == "dark"@
        &&& self.position == spec_default_position()
        &&& self.limit is None
    }
}

impl Default for Config {
    fn default() -> (c: Self)
        ensures
            c.is_default(),
    {
        Config {
            poll_interval: default_poll(),
            mode: default_mode(),
            theme: default_theme(),
            position: default_position(),
            limit: None,
        }
    }
}

} // verus!

verus! {

/// The themes the widget knows.
pub open spec fn is_known_theme(t: Seq<char>) -> bool {
    t == "dark"@ || t == "light"@ || t == "glass"@
}

/// The theme that is stored when `requested` is asked for: a known theme is
/// kept, anything else falls back to the default theme.
pub open spec fn theme_choice(requested: Seq<char>) -> Seq<char> {
    if is_known_theme(requested) {
        requested
    } else {
        "dark"@
    }
}

/// The limit that is stored when `value` is asked for: only a strictly
/// positive cap is kept; anything else clears the limit.
pub open spec fn accepted_limit(value: Option<u64>) -> Option<u64> {
    match value {
        Some(v) => if v > 0 { Some(v) } else { None },
        None => None,
    }
}

/// The polling interval with its floor of five seconds applied.
pub open spec fn poll_floor(secs: u64) -> u64 {
    if secs < 5 { 5 } else { secs }
}

/// Every field of the two configurations other than the theme agrees.
pub open spec fn same_but_theme(a: Config, b: Config) -> bool {
    &&& a.poll_interval == b.poll_interval
    &&& a.mode@ == b.mode@
    &&& a.position == b.position
    &&& a.limit == b.limit
}

/// Every field of the two configurations other than the limit agrees.
pub open spec fn same_but_limit(a: Config, b: Config) -> bool {
    &&& a.poll_interval == b.poll_interval
    &&& a.mode@ == b.mode@
    &&& a.theme@ == b.theme@
    &&& a.position == b.position
}

/// Every field of the two configurations other than the position agrees.
pub open spec fn same_but_position(a: Config, b: Config) -> bool {
    &&& a.poll_interval == b.poll_interval
    &&& a.mode@ == b.mode@
    &&& a.theme@ == b.theme@
    &&& a.limit == b.limit
}

/// Every field of the two configurations other than the polling interval agrees.
pub open spec fn same_but_poll(a: Config, b: Config) -> bool {
    &&& a.mode@ == b.mode@
    &&& a.theme@ == b.theme@
    &&& a.position == b.position
    &&& a.limit == b.limit
}

/// Record a new window position without disturbing other fields.
pub fn save_position(cfg: &mut Config, x: i32, y: i32)
    ensures
        final(cfg).position == (Position { x, y }),
        same_but_position(*old(cfg), *final(cfg)),
{
    cfg.position = Position { x, y };
}

/// Select a theme, validated against the known names (`dark`, `light`,
/// `glass`); an unknown name selects the default theme.
pub fn set_theme(cfg: &mut Config, theme: &str)
    ensures
        final(cfg).theme@ == theme_choice(theme@),
        same_but_theme(*old(cfg), *final(cfg)),
{
    let valid = crate::text::text_eq(theme, "dark") || crate::text::text_eq(theme, "light")
        || crate::text::text_eq(theme, "glass");
    if valid {
        cfg.theme = String::from_str(theme);
    } else {
        cfg.theme = default_theme();
    }
}

/// Set (or clear) the user token limit, keeping other fields intact.
/// Only strictly positive values are accepted; anything else clears the
/// limit, and no percentage is shown.
pub fn set_limit(cfg: &mut Config, value: Option<u64>)
    ensures
        final(cfg).limit == accepted_limit(value),
        same_but_limit(*old(cfg), *final(cfg)),
{
    cfg.limit = match value {
        Some(v) => if v > 0 { Some(v) } else { None },
        None => None,
    };
}

/// Set the polling interval from the command line; intervals under five
/// seconds are raised to five.
pub fn set_poll_interval(cfg: &mut Config, secs: u64)
    ensures
        final(cfg).poll_interval == poll_floor(secs),
        same_but_poll(*old(cfg), *final(cfg)),
{
    cfg.poll_interval = if secs < 5 { 5 } else { secs };
}

/// Seconds to wait between two polls of `ccusage`: the configured interval,
/// but never under five seconds.
pub fn poll_seconds(cfg: &Config) -> (r: u64)
    ensures
        r == poll_floor(cfg.poll_interval),
{
    if cfg.poll_interval < 5 { 5 } else { cfg.poll_interval }
}

/// What loading settles on: a configuration that was read and parsed is
/// used as it is; when none could be read or parsed, the default
/// configuration is used and is to be written back (`true`).
pub fn loaded_or_default(parsed: Option<Config>) -> (r: (Config, bool))
    ensures
        match parsed {
            Some(c) => r.0 == c && !r.1,
            None => r.0.is_default() && r.1,
        },
{
    match parsed {
        Some(c) => (c, false),
        None => (Config::default(), true),
    }
}

/// The path of the directory that holds `config.json`, as components:
/// `%APPDATA%\ClaudeGauge` where `APPDATA` is set, else
/// `$HOME/.config/ClaudeGauge`, else `./ClaudeGauge`.
pub open spec fn spec_config_dir(appdata: Option<Seq<char>>, home: Option<Seq<char>>) -> Seq<
    Seq<char>,
> {
    match appdata {
        Some(a) => seq![a, "ClaudeGauge"@],
        None => match home {
            Some(h) => seq![h, ".config"@, "ClaudeGauge"@],
            None => seq!["."@, "ClaudeGauge"@],
        },
    }
}

/// The directory that holds `config.json`, as path components, given the
/// values of the `APPDATA` and `HOME` environment variables.
pub fn config_dir(appdata: Option<String>, home: Option<String>) -> (r: Vec<String>)
    ensures
        r.deep_view() == spec_config_dir(appdata.deep_view(), home.deep_view()),
{
    let mut parts: Vec<String> = Vec::new();
    match appdata {
        Some(a) => {
            parts.push(a);
        },
        None => match home {
            Some(h) => {
                parts.push(h);
                parts.push(String::from_str(".config"));
            },
            None => {
                parts.push(String::from_str("."));
            },
        },
    }
    parts.push(String::from_str("ClaudeGauge"));
    assert(parts.deep_view() =~= spec_config_dir(appdata.deep_view(), home.deep_view()));
    parts
}

/// The path of `config.json`, as path components, given the values of the
/// `APPDATA` and `HOME` environment variables.
pub fn config_path(appdata: Option<String>, home: Option<String>) -> (r: Vec<String>)
    ensures
        r.deep_view() == spec_config_dir(appdata.deep_view(), home.deep_view()).push(
            "config.json"@,
        ),
{
    let mut parts = config_dir(appdata, home);
    let ghost before = parts.deep_view();
    parts.push(String::from_str("config.json"));
    assert(parts.deep_view() =~= before.push("config.json"@));
    parts
}

} // verus!

verus! {

/// Selecting a theme always leaves one of the known themes stored, and
/// selecting the stored theme again changes nothing.
pub proof fn theme_choice_is_known_and_stable(requested: Seq<char>)
    ensures
        is_known_theme(theme_choice(requested)),
        theme_choice(theme_choice(requested)) == theme_choice(requested),
        requested == "dark"@ || requested == "light"@ || requested == "glass"@
            ==> theme_choice(requested) == requested,
        !(requested == "dark"@ || requested == "light"@ || requested == "glass"@)
            ==> theme_choice(requested) == "dark"@,
{
}

/// A stored limit is never zero: it is either absent or strictly positive;
/// and setting the stored limit again changes nothing.
pub proof fn accepted_limit_is_positive_and_stable(value: Option<u64>)
    ensures
        accepted_limit(value) matches Some(l) ==> l > 0,
        accepted_limit(accepted_limit(value)) == accepted_limit(value),
        value matches Some(v) && v > 0 ==> accepted_limit(value) == value,
        value == Some(0u64) ==> accepted_limit(value) is None,
        value is None ==> accepted_limit(value) is None,
{
}

/// The gauge never polls more often than every five seconds, and applying
/// the floor twice is applying it once.
pub proof fn poll_floor_is_at_least_five(secs: u64)
    ensures
        poll_floor(secs) >= 5,
        poll_floor(poll_floor(secs)) == poll_floor(secs),
        secs >= 5 ==> poll_floor(secs) == secs,
        secs < 5 ==> poll_floor(secs) == 5,
{
}

/// Where `APPDATA` is set, the settings live in `%APPDATA%\ClaudeGauge`
/// whatever `HOME` holds; `HOME` is consulted only when `APPDATA` is absent,
/// and with neither the directory is `./ClaudeGauge`. The file is
/// `config.json` inside that directory.
pub proof fn appdata_decides_config_dir(
    appdata: Option<Seq<char>>,
    home: Option<Seq<char>>,
)
    ensures
        appdata matches Some(a) ==> spec_config_dir(appdata, home) == seq![a, "ClaudeGauge"@],
        appdata is None ==> (home matches Some(h) ==> spec_config_dir(appdata, home) == seq![
            h,
            ".config"@,
            "ClaudeGauge"@,
        ]),
        appdata is None && home is None ==> spec_config_dir(appdata, home) == seq![
            "."@,
            "ClaudeGauge"@,
        ],
        spec_config_dir(appdata, home).len() >= 2,
        spec_config_dir(appdata, home).last() == "ClaudeGauge"@,
{
}

} // verus!
