//! The command-line forms and window commands that the gauge obeys.

use vstd::prelude::*;
use crate::text::{text_eq, trim, remove_separators, to_lowercase, parse_u64, spec_parse_u64,
    trimmed, without_separators, lowercase};

verus! {

/// What a `claudegauge config ...` command line asks for.
#[derive(Debug)]
pub enum ConfigCommand {
    /// The arguments are not a `config` command: the widget starts.
    NotConfig,
    /// `config set limit <value>`, with the value as typed.
    Limit(String),
    /// `config set poll <secs>`, with the seconds read.
    Poll(u64),
    /// `config set poll <value>` where the value is not a number of seconds.
    InvalidPoll,
    /// Any other `config` command: the usage line is printed.
    Usage,
}

/// Argument `i`, or the empty text where there is none.
pub open spec fn arg_or_empty(args: Seq<Seq<char>>, i: int) -> Seq<char> {
    if 0 <= i < args.len() {
        args[i]
    } else {
        Seq::empty()
    }
}

/// The arguments form a `config` command.
pub open spec fn is_config_call(args: Seq<Seq<char>>) -> bool {
    args.len() > 1 && args[1] == "config"@
}

/// The `config` command asks to set something.
pub open spec fn is_set_call(args: Seq<Seq<char>>) -> bool {
    args.len() > 2 && args[2] == "set"@
}

/// Whether argument `i` exists and equals `word`.
fn arg_is(args: &Vec<String>, i: usize, word: &str) -> (r: bool)
    ensures
        r == (i < args.deep_view().len() && args.deep_view()[i as int] == word@),
{
    i < args.len() && text_eq(args[i].as_str(), word)
}

/// Argument `i`, or the empty text where there is none.
fn arg_or_empty_exec(args: &Vec<String>, i: usize) -> (r: String)
    ensures
        r@ == arg_or_empty(args.deep_view(), i as int),
{
    if i < args.len() {
        args[i].clone()
    } else {
        String::new()
    }
}

/// Read `config set <key> <value>` from the process arguments (`args[0]` is
/// the program). `NotConfig` means the caller should go on and start the
/// widget; every other result ends the process after its work.
pub fn parse_config_cli(args: &Vec<String>) -> (r: ConfigCommand)
    ensures
        ({
            let a = args.deep_view();
            let key = arg_or_empty(a, 3);
            let raw = arg_or_empty(a, 4);
            if !is_config_call(a) {
                r is NotConfig
            } else if is_set_call(a) && key == "limit"@ {
                r matches ConfigCommand::Limit(t) && t@ == raw
            } else if is_set_call(a) && key == "poll"@ {
                match spec_parse_u64(raw) {
                    Some(v) => r matches ConfigCommand::Poll(p) && p == v,
                    None => r is InvalidPoll,
                }
            } else {
                r is Usage
            }
        }),
{
    if !arg_is(args, 1, "config") {
        return ConfigCommand::NotConfig;
    }
    let is_set = arg_is(args, 2, "set");
    let key = arg_or_empty_exec(args, 3);
    let raw = arg_or_empty_exec(args, 4);
    if is_set && text_eq(key.as_str(), "limit") {
        ConfigCommand::Limit(raw)
    } else if is_set && text_eq(key.as_str(), "poll") {
        match parse_u64(raw.as_str()) {
            Some(secs) => ConfigCommand::Poll(secs),
            None => ConfigCommand::InvalidPoll,
        }
    } else {
        ConfigCommand::Usage
    }
}

/// The text of a human-friendly number, cleaned: trimmed, without `,` and
/// `_`, in lower case.
pub open spec fn cleaned_number(s: Seq<char>) -> Seq<char> {
    lowercase(without_separators(trimmed(s)))
}

/// How a human-friendly number splits into its numeric text and its
/// multiplier: a trailing `m` means millions, a trailing `k` thousands;
/// nothing is left of an empty text.
pub open spec fn spec_human_number_parts(s: Seq<char>) -> Option<(Seq<char>, u64)> {
    let t = cleaned_number(s);
    if t.len() == 0 {
        None
    } else if t.last() == 'm' {
        Some((t.drop_last(), 1_000_000))
    } else if t.last() == 'k' {
        Some((t.drop_last(), 1_000))
    } else {
        Some((t, 1))
    }
}

/// Split a human-friendly number ("2000000", "2,000,000", "2m", "500k")
/// into the numeric text to read and the multiplier to apply to it.
pub fn human_number_parts(s: &str) -> (r: Option<(String, u64)>)
    ensures
        match spec_human_number_parts(s@) {
            None => r is None,
            Some((t, m)) => r matches Some((rt, rm)) && rt@ == t && rm == m,
        },
{
    let cleaned = remove_separators(trim(s));
    let t = to_lowercase(cleaned.as_str());
    let n = t.unicode_len();
    if n == 0 {
        return None;
    }
    let last = t.get_char(n - 1);
    if last == 'm' {
        Some((String::from_str(t.substring_char(0, n - 1)), 1_000_000))
    } else if last == 'k' {
        Some((String::from_str(t.substring_char(0, n - 1)), 1_000))
    } else {
        Some((t, 1))
    }
}

/// What the widget's window is told to do.
#[derive(Clone, Copy, Debug, PartialEq, Eq, Structural)]
pub enum WindowAction {
    /// Quit the application.
    Exit,
    /// Show the window and give it focus.
    ShowAndFocus,
    /// Show the window.
    Show,
    /// Hide the window (the tray stays).
    Hide,
}

/// The action for a control command (`stop`, `quit`, `start`, `show`,
/// `hide`, `toggle`; anything else shows the window), given whether the
/// window is visible.
pub open spec fn spec_control_action(cmd: Seq<char>, visible: bool) -> WindowAction {
    if cmd == "stop"@ || cmd == "quit"@ {
        WindowAction::Exit
    } else if cmd == "start"@ || cmd == "show"@ {
        WindowAction::ShowAndFocus
    } else if cmd == "hide"@ {
        WindowAction::Hide
    } else if cmd == "toggle"@ {
        if visible {
            WindowAction::Hide
        } else {
            WindowAction::ShowAndFocus
        }
    } else {
        WindowAction::Show
    }
}

/// Apply a control command to the running instance: the action to take.
pub fn control_action(cmd: &str, visible: bool) -> (r: WindowAction)
    ensures
        r == spec_control_action(cmd@, visible),
{
    if text_eq(cmd, "stop") || text_eq(cmd, "quit") {
        WindowAction::Exit
    } else if text_eq(cmd, "start") || text_eq(cmd, "show") {
        WindowAction::ShowAndFocus
    } else if text_eq(cmd, "hide") {
        WindowAction::Hide
    } else if text_eq(cmd, "toggle") {
        if visible {
            WindowAction::Hide
        } else {
            WindowAction::ShowAndFocus
        }
    } else {
        WindowAction::Show
    }
}

/// The action for the subcommand of the first instance: `stop` has nothing
/// to stop and exits; anything else shows the widget.
pub fn startup_action(subcommand: &str) -> (r: WindowAction)
    ensures
        r == (if subcommand@ == "stop"@ {
            WindowAction::Exit
        } else {
            WindowAction::Show
        }),
{
    if text_eq(subcommand, "stop") {
        WindowAction::Exit
    } else {
        WindowAction::Show
    }
}

} // verus!

verus! {

/// A cleaned number that ends in `m` counts millions and one that ends in
/// `k` thousands, whatever digits come before; the number text is the
/// cleaned text without that letter. Any other non-empty cleaned text counts
/// units and is kept whole; an empty one gives nothing.
pub proof fn suffix_sets_multiplier(s: Seq<char>)
    ensures
        ({
            let t = cleaned_number(s);
            &&& t.len() == 0 ==> spec_human_number_parts(s) is None
            &&& t.len() > 0 && t.last() == 'm' ==> spec_human_number_parts(s) == Some(
                (t.subrange(0, t.len() - 1), 1_000_000u64),
            )
            &&& t.len() > 0 && t.last() == 'k' ==> spec_human_number_parts(s) == Some(
                (t.subrange(0, t.len() - 1), 1_000u64),
            )
            &&& t.len() > 0 && t.last() != 'm' && t.last() != 'k' ==> spec_human_number_parts(s)
                == Some((t, 1u64))
        }),
{
}

/// `stop` and `quit` quit the application whether or not the window is
/// visible; `start` and `show` show and focus it, `hide` hides it; `toggle`
/// hides a visible window and shows and focuses a hidden one.
pub proof fn control_commands_act_as_named(visible: bool)
    ensures
        spec_control_action("stop"@, visible) == WindowAction::Exit,
        spec_control_action("quit"@, visible) == WindowAction::Exit,
        spec_control_action("start"@, visible) == WindowAction::ShowAndFocus,
        spec_control_action("show"@, visible) == WindowAction::ShowAndFocus,
        spec_control_action("hide"@, visible) == WindowAction::Hide,
        spec_control_action("toggle"@, true) == WindowAction::Hide,
        spec_control_action("toggle"@, false) == WindowAction::ShowAndFocus,
{
    reveal_strlit("stop");
    reveal_strlit("quit");
    reveal_strlit("start");
    reveal_strlit("show");
    reveal_strlit("hide");
    reveal_strlit("toggle");
    assert("quit"@[0] != "stop"@[0]);
    assert("start"@.len() != "stop"@.len() && "start"@.len() != "quit"@.len());
    assert("show"@[0] == "stop"@[0] && "show"@[1] != "stop"@[1]);
    assert("show"@[0] != "quit"@[0]);
    assert("hide"@[0] != "stop"@[0] && "hide"@[0] != "quit"@[0] && "hide"@[0] != "show"@[0]);
    assert("hide"@.len() != "start"@.len());
    assert("toggle"@.len() != "stop"@.len() && "toggle"@.len() != "quit"@.len());
    assert("toggle"@.len() != "start"@.len() && "toggle"@.len() != "show"@.len());
    assert("toggle"@.len() != "hide"@.len());
}

/// Only `toggle` depends on whether the window is visible; every other
/// command acts the same either way, and a command that is none of the known
/// ones just shows the window.
pub proof fn only_toggle_reads_visibility(cmd: Seq<char>)
    ensures
        cmd != "toggle"@ ==> spec_control_action(cmd, true) == spec_control_action(cmd, false),
        cmd != "stop"@ && cmd != "quit"@ && cmd != "start"@ && cmd != "show"@ && cmd != "hide"@
            && cmd != "toggle"@ ==> spec_control_action(cmd, true) == WindowAction::Show
            && spec_control_action(cmd, false) == WindowAction::Show,
{
}

} // verus!
