use heyo::args::{exit_code, parse_args, ArgError, CliOption, Database, OptionError, Parsed};

fn strings(args: &[&str]) -> Vec<String> {
    args.iter().map(|s| s.to_string()).collect()
}

fn run_of(args: &[&str]) -> Option<(String, String)> {
    match parse_args(strings(args)) {
        Ok(Parsed::Run(run)) => Some((run.cmd, run.db)),
        _ => None,
    }
}

#[test]
fn cmd_and_db_are_read() {
    assert_eq!(
        run_of(&["--cmd", "npm start", "--db", "host=localhost user=postgres"]),
        Some(("npm start".to_string(), "host=localhost user=postgres".to_string()))
    );
}

#[test]
fn options_may_come_in_any_order_and_extras_are_ignored() {
    assert_eq!(
        run_of(&["stray", "--db", "d", "more", "--cmd", "c", "tail"]),
        Some(("c".to_string(), "d".to_string()))
    );
}

#[test]
fn first_occurrence_of_an_option_wins() {
    assert_eq!(
        run_of(&["--cmd", "one", "--cmd", "two", "--db", "d"]),
        Some(("one".to_string(), "d".to_string()))
    );
}

#[test]
fn help_flag_wins_wherever_it_stands() {
    assert!(matches!(parse_args(strings(&["-h"])), Ok(Parsed::Help)));
    assert!(matches!(parse_args(strings(&["--help"])), Ok(Parsed::Help)));
    assert!(matches!(parse_args(strings(&["--cmd", "c", "--db", "d", "--help"])), Ok(Parsed::Help)));
    assert!(matches!(parse_args(strings(&["--cmd", "-h"])), Ok(Parsed::Help)));
}

#[test]
fn missing_cmd_is_an_error() {
    assert_eq!(
        parse_args(strings(&["--db", "d"])).err(),
        Some(ArgError { option: CliOption::Cmd, reason: OptionError::Missing })
    );
    assert_eq!(
        parse_args(Vec::new()).err(),
        Some(ArgError { option: CliOption::Cmd, reason: OptionError::Missing })
    );
}

#[test]
fn missing_db_is_an_error() {
    assert_eq!(
        parse_args(strings(&["--cmd", "c"])).err(),
        Some(ArgError { option: CliOption::Db, reason: OptionError::Missing })
    );
}

#[test]
fn option_without_value_is_an_error() {
    assert_eq!(
        parse_args(strings(&["--db", "d", "--cmd"])).err(),
        Some(ArgError { option: CliOption::Cmd, reason: OptionError::WithoutValue })
    );
    assert_eq!(
        parse_args(strings(&["--cmd", "c", "--db"])).err(),
        Some(ArgError { option: CliOption::Db, reason: OptionError::WithoutValue })
    );
}

#[test]
fn value_that_looks_like_an_option_is_taken_as_value() {
    assert_eq!(
        parse_args(strings(&["--cmd", "--db", "d"])).err(),
        Some(ArgError { option: CliOption::Db, reason: OptionError::Missing })
    );
    assert_eq!(
        run_of(&["--cmd", "--db", "--db", "d"]),
        Some(("--db".to_string(), "d".to_string()))
    );
}

#[test]
fn exit_codes() {
    assert_eq!(exit_code(&parse_args(strings(&["--help"]))), Some(0));
    assert_eq!(exit_code(&parse_args(strings(&["--cmd"]))), Some(1));
    assert_eq!(exit_code(&parse_args(strings(&["--cmd", "c", "--db", "d"]))), None);
}

#[test]
fn database_kinds_are_distinct() {
    assert_ne!(Database::Postgres, Database::Mysql);
    assert_ne!(Database::Mysql, Database::Mssql);
    assert_ne!(Database::Postgres, Database::Mssql);
}
