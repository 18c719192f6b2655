use statusbar::config::{ActiveCommand, Config};

#[test]
fn default_command_is_empty() {
    let command = ActiveCommand::default();
    assert_eq!(command.command, "");
    assert_eq!(command.output, "");
    assert_eq!(command.update_delay, None);
    assert_eq!(command.ignore_status_code, None);
}

#[test]
fn new_command_holds_its_text_only() {
    let command = ActiveCommand::new("uptime -p");
    assert_eq!(command.command, "uptime -p");
    assert_eq!(command.output, "");
    assert_eq!(command.update_delay, None);
    assert_eq!(command.ignore_status_code, None);
}

#[test]
fn default_config_is_the_documented_one() {
    let config = Config::default();
    assert_eq!(config.default_update_delay, 990);
    assert_eq!(config.thread_polling_delay, 500);
    assert_eq!(config.delimiter, " ");
    assert_eq!(config.commands.len(), 2);
    assert_eq!(config.commands[0].command, "date");
    assert_eq!(config.commands[0].output, "");
    assert_eq!(config.commands[0].update_delay, None);
    assert_eq!(config.commands[0].ignore_status_code, None);
    assert_eq!(config.commands[1].command, "echo \"The bar is working\"");
    assert_eq!(config.commands[1].output, "");
    assert_eq!(config.commands[1].update_delay, Some(0));
    assert_eq!(config.commands[1].ignore_status_code, None);
}

#[test]
fn effective_delay_prefers_the_commands_own() {
    let mut command = ActiveCommand::new("date");
    assert_eq!(command.effective_delay(990), 990);
    assert_eq!(command.effective_delay(0), 0);
    command.update_delay = Some(250);
    assert_eq!(command.effective_delay(990), 250);
    command.update_delay = Some(0);
    assert_eq!(command.effective_delay(990), 0);
    command.update_delay = Some(u64::MAX);
    assert_eq!(command.effective_delay(1), u64::MAX);
}

#[test]
fn only_an_explicit_false_retries_failures() {
    let mut command = ActiveCommand::new("false");
    assert!(!command.retries_failure());
    command.ignore_status_code = Some(true);
    assert!(!command.retries_failure());
    command.ignore_status_code = Some(false);
    assert!(command.retries_failure());
}

#[test]
fn clone_of_a_command_keeps_every_field() {
    let mut command = ActiveCommand::new("date");
    command.output = String::from("today\n");
    command.update_delay = Some(5);
    command.ignore_status_code = Some(false);
    let copy = command.clone();
    assert_eq!(copy.command, "date");
    assert_eq!(copy.output, "today\n");
    assert_eq!(copy.update_delay, Some(5));
    assert_eq!(copy.ignore_status_code, Some(false));
}

#[test]
fn clone_of_a_config_keeps_every_field() {
    let mut config = Config::default();
    config.commands[0].output = String::from("x");
    let copy = config.clone();
    assert_eq!(copy.default_update_delay, 990);
    assert_eq!(copy.thread_polling_delay, 500);
    assert_eq!(copy.delimiter, " ");
    assert_eq!(copy.commands.len(), 2);
    assert_eq!(copy.commands[0].command, "date");
    assert_eq!(copy.commands[0].output, "x");
    assert_eq!(copy.commands[1].command, "echo \"The bar is working\"");
    assert_eq!(copy.commands[1].update_delay, Some(0));
}
