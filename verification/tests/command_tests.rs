use brightness_slider::command::{apply_command, parse_command_from_args, Command};

fn args(a: &str, b: &str) -> Vec<String> {
    vec![a.to_string(), b.to_string()]
}

#[test]
fn parses_the_three_commands() {
    assert_eq!(
        parse_command_from_args(&args("inc", "5")),
        Some(Command::Increase(5))
    );
    assert_eq!(
        parse_command_from_args(&args("dec", "100")),
        Some(Command::Decrease(100))
    );
    assert_eq!(
        parse_command_from_args(&args("set", "0")),
        Some(Command::SetAbsolute(0))
    );
}

#[test]
fn rejects_wrong_argument_count() {
    assert_eq!(parse_command_from_args(&[]), None);
    assert_eq!(parse_command_from_args(&["inc".to_string()]), None);
    assert_eq!(
        parse_command_from_args(&vec![
            "inc".to_string(),
            "5".to_string(),
            "5".to_string()
        ]),
        None
    );
}

#[test]
fn rejects_unknown_words() {
    assert_eq!(parse_command_from_args(&args("bump", "5")), None);
    assert_eq!(parse_command_from_args(&args("INC", "5")), None);
    assert_eq!(parse_command_from_args(&args("in", "5")), None);
    assert_eq!(parse_command_from_args(&args("incr", "5")), None);
    assert_eq!(parse_command_from_args(&args("", "5")), None);
}

#[test]
fn rejects_bad_numbers() {
    assert_eq!(parse_command_from_args(&args("inc", "")), None);
    assert_eq!(parse_command_from_args(&args("inc", "5a")), None);
    assert_eq!(parse_command_from_args(&args("inc", "-5")), None);
    assert_eq!(parse_command_from_args(&args("inc", " 5")), None);
    assert_eq!(parse_command_from_args(&args("inc", "1 0")), None);
}

#[test]
fn rejects_out_of_range_values() {
    assert_eq!(parse_command_from_args(&args("inc", "101")), None);
    assert_eq!(parse_command_from_args(&args("set", "255")), None);
    assert_eq!(parse_command_from_args(&args("dec", "256")), None);
    assert_eq!(parse_command_from_args(&args("inc", "99999999999")), None);
}

#[test]
fn accepts_boundary_and_leading_zeros() {
    assert_eq!(
        parse_command_from_args(&args("inc", "100")),
        Some(Command::Increase(100))
    );
    assert_eq!(
        parse_command_from_args(&args("set", "007")),
        Some(Command::SetAbsolute(7))
    );
    assert_eq!(
        parse_command_from_args(&args("dec", "00000000100")),
        Some(Command::Decrease(100))
    );
    assert_eq!(
        parse_command_from_args(&args("set", "0")),
        Some(Command::SetAbsolute(0))
    );
}

#[test]
fn apply_increase_clamps() {
    assert_eq!(apply_command(90, Command::Increase(20)), 100);
    assert_eq!(apply_command(50, Command::Increase(10)), 60);
}

#[test]
fn apply_decrease_clamps() {
    assert_eq!(apply_command(40, Command::Decrease(15)), 25);
    assert_eq!(apply_command(10, Command::Decrease(50)), 0);
}

#[test]
fn apply_set_absolute_clamps_too() {
    assert_eq!(apply_command(50, Command::SetAbsolute(150)), 100);
    assert_eq!(apply_command(50, Command::SetAbsolute(255)), 100);
    assert_eq!(apply_command(50, Command::SetAbsolute(70)), 70);
}
