use claudegauge::cli::{
    control_action, human_number_parts, parse_config_cli, startup_action, ConfigCommand,
    WindowAction,
};
use claudegauge::text::parse_u64;

fn args(list: &[&str]) -> Vec<String> {
    list.iter().map(|s| s.to_string()).collect()
}

#[test]
fn config_cli_forms() {
    assert!(matches!(parse_config_cli(&args(&["claudegauge"])), ConfigCommand::NotConfig));
    assert!(matches!(
        parse_config_cli(&args(&["claudegauge", "toggle"])),
        ConfigCommand::NotConfig
    ));
    match parse_config_cli(&args(&["claudegauge", "config", "set", "limit", "2m"])) {
        ConfigCommand::Limit(raw) => assert_eq!(raw, "2m"),
        other => panic!("unexpected {:?}", other),
    }
    match parse_config_cli(&args(&["claudegauge", "config", "set", "limit"])) {
        ConfigCommand::Limit(raw) => assert_eq!(raw, ""),
        other => panic!("unexpected {:?}", other),
    }
    assert!(matches!(
        parse_config_cli(&args(&["claudegauge", "config", "set", "poll", "60"])),
        ConfigCommand::Poll(60)
    ));
    assert!(matches!(
        parse_config_cli(&args(&["claudegauge", "config", "set", "poll", "soon"])),
        ConfigCommand::InvalidPoll
    ));
    assert!(matches!(
        parse_config_cli(&args(&["claudegauge", "config", "get", "limit", "1"])),
        ConfigCommand::Usage
    ));
    assert!(matches!(
        parse_config_cli(&args(&["claudegauge", "config"])),
        ConfigCommand::Usage
    ));
}

#[test]
fn parse_u64_follows_std() {
    for s in ["0", "60", "+7", "007", "18446744073709551615", "18446744073709551616", "", "+",
        "-1", " 5", "5 ", "1_000", "12a"]
    {
        assert_eq!(parse_u64(s), s.parse::<u64>().ok(), "on {:?}", s);
    }
}

#[test]
fn human_numbers_split_into_text_and_multiplier() {
    assert_eq!(human_number_parts("2000000"), Some(("2000000".to_string(), 1)));
    assert_eq!(human_number_parts("2,000,000"), Some(("2000000".to_string(), 1)));
    assert_eq!(human_number_parts(" 2m "), Some(("2".to_string(), 1_000_000)));
    assert_eq!(human_number_parts("2M"), Some(("2".to_string(), 1_000_000)));
    assert_eq!(human_number_parts("500k"), Some(("500".to_string(), 1_000)));
    assert_eq!(human_number_parts("1_5K"), Some(("15".to_string(), 1_000)));
    assert_eq!(human_number_parts("\t2.5m\n"), Some(("2.5".to_string(), 1_000_000)));
    assert_eq!(human_number_parts("m"), Some(("".to_string(), 1_000_000)));
    assert_eq!(human_number_parts("   "), None);
    assert_eq!(human_number_parts(",_"), None);
    assert_eq!(human_number_parts(""), None);
}

#[test]
fn control_commands() {
    assert_eq!(control_action("stop", true), WindowAction::Exit);
    assert_eq!(control_action("quit", false), WindowAction::Exit);
    assert_eq!(control_action("start", false), WindowAction::ShowAndFocus);
    assert_eq!(control_action("show", true), WindowAction::ShowAndFocus);
    assert_eq!(control_action("hide", true), WindowAction::Hide);
    assert_eq!(control_action("toggle", true), WindowAction::Hide);
    assert_eq!(control_action("toggle", false), WindowAction::ShowAndFocus);
    assert_eq!(control_action("bogus", false), WindowAction::Show);
    assert_eq!(startup_action("stop"), WindowAction::Exit);
    assert_eq!(startup_action("toggle"), WindowAction::Show);
    assert_eq!(startup_action(""), WindowAction::Show);
}
