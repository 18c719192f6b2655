use statusbar::config::ActiveCommand;
use statusbar::status::status_line;

fn cached(command: &str, output: &str) -> ActiveCommand {
    let mut made = ActiveCommand::new(command);
    made.output = String::from(output);
    made
}

#[test]
fn status_line_of_no_command_is_empty() {
    assert_eq!(status_line(&Vec::new(), "|"), "");
}

#[test]
fn status_line_ends_every_field_with_the_delimiter() {
    let commands = vec![cached("echo A", "A\n"), cached("echo B", "B\n")];
    assert_eq!(status_line(&commands, "|"), "A|B|");
}

#[test]
fn status_line_keeps_the_order_of_the_commands() {
    let commands = vec![cached("c", "3"), cached("a", "1"), cached("b", "2")];
    assert_eq!(status_line(&commands, ", "), "3, 1, 2, ");
}

#[test]
fn status_line_takes_the_first_line_of_each_output() {
    let commands = vec![cached("ls", "first\nsecond\nthird\n"), cached("id", "uid=0\n\n")];
    assert_eq!(status_line(&commands, " "), "first uid=0 ");
}

#[test]
fn status_line_keeps_empty_fields() {
    let commands = vec![cached("true", ""), cached("echo", "\n"), cached("echo x", "x")];
    assert_eq!(status_line(&commands, "|"), "||x|");
}

#[test]
fn status_line_with_empty_delimiter_joins_the_lines() {
    let commands = vec![cached("a", "ab\n"), cached("b", "cd\n")];
    assert_eq!(status_line(&commands, ""), "abcd");
}

#[test]
fn status_line_does_not_read_the_command_text() {
    let one = vec![cached("echo A", "same\n")];
    let other = vec![cached("printf same", "same\nrest")];
    assert_eq!(status_line(&one, "|"), status_line(&other, "|"));
}
