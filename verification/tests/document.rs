use serde_json::{Number, Value};
use statusbar::config::{ActiveCommand, Config};
use statusbar::schedule::Phase;
use statusbar::scheduler::{Action, Event, Scheduler};

fn command_to_value(command: &ActiveCommand) -> Value {
    let mut fields = serde_json::Map::new();
    fields.insert(String::from("command"), Value::String(command.command.clone()));
    if let Some(delay) = command.update_delay {
        fields.insert(String::from("update_delay"), Value::Number(Number::from(delay)));
    }
    if let Some(ignore) = command.ignore_status_code {
        fields.insert(String::from("ignore_status_code"), Value::Bool(ignore));
    }
    Value::Object(fields)
}

fn config_to_value(config: &Config) -> Value {
    let mut fields = serde_json::Map::new();
    fields.insert(
        String::from("default_update_delay"),
        Value::Number(Number::from(config.default_update_delay)),
    );
    fields.insert(
        String::from("thread_polling_delay"),
        Value::Number(Number::from(config.thread_polling_delay)),
    );
    fields.insert(String::from("delimiter"), Value::String(config.delimiter.clone()));
    fields.insert(
        String::from("commands"),
        Value::Array(config.commands.iter().map(command_to_value).collect()),
    );
    Value::Object(fields)
}

fn command_from_value(value: &Value) -> ActiveCommand {
    let mut command = ActiveCommand::new(value.get("command").unwrap().as_str().unwrap());
    command.update_delay = value.get("update_delay").map(|delay| delay.as_u64().unwrap());
    command.ignore_status_code = value.get("ignore_status_code").map(|ignore| ignore.as_bool().unwrap());
    command
}

fn config_from_value(value: &Value) -> Config {
    Config {
        default_update_delay: value.get("default_update_delay").unwrap().as_u64().unwrap(),
        thread_polling_delay: value.get("thread_polling_delay").unwrap().as_u64().unwrap(),
        delimiter: String::from(value.get("delimiter").unwrap().as_str().unwrap()),
        commands: value
            .get("commands")
            .unwrap()
            .as_array()
            .unwrap()
            .iter()
            .map(command_from_value)
            .collect(),
    }
}

#[test]
fn default_config_comes_back_from_its_document() {
    let written = serde_json::to_string_pretty(&config_to_value(&Config::default())).unwrap();
    assert!(written.contains("\"command\": \"date\""));
    assert!(written.contains("\"command\": \"echo \\\"The bar is working\\\"\""));
    assert!(written.contains("\"update_delay\": 0"));
    assert!(!written.contains("ignore_status_code"));
    assert!(!written.contains("output"));

    let reloaded = config_from_value(&serde_json::from_str::<Value>(&written).unwrap());
    let literal = Config::default();
    assert_eq!(reloaded.default_update_delay, literal.default_update_delay);
    assert_eq!(reloaded.thread_polling_delay, literal.thread_polling_delay);
    assert_eq!(reloaded.delimiter, literal.delimiter);
    assert_eq!(reloaded.commands.len(), literal.commands.len());
    for (back, given) in reloaded.commands.iter().zip(literal.commands.iter()) {
        assert_eq!(back.command, given.command);
        assert_eq!(back.output, given.output);
        assert_eq!(back.update_delay, given.update_delay);
        assert_eq!(back.ignore_status_code, given.ignore_status_code);
    }

    let (mut from_file, first) = Scheduler::start(reloaded);
    let (mut from_literal, second) = Scheduler::start(literal);
    assert_eq!(first, second);
    for scheduler in [&mut from_file, &mut from_literal] {
        let tick = scheduler.tick(vec![
            Event::RunFinished { index: 0, succeeded: true, stdout: String::from("Sat Feb  3 04:05:06 UTC 2024\n") },
            Event::RunFinished { index: 1, succeeded: true, stdout: String::from("The bar is working\n") },
        ]);
        assert_eq!(tick.reactions[0].action, Action::Wait { index: 0, delay: 990 });
        assert_eq!(tick.reactions[1].action, Action::Retire { index: 1 });
        assert_eq!(tick.status, "Sat Feb  3 04:05:06 UTC 2024 The bar is working ");
        assert_eq!(scheduler.phase(1), Some(Phase::Retired));
    }
    assert_eq!(from_file.status_line(), from_literal.status_line());
}
