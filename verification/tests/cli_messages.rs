use appcore::{ArgLimits, ArgumentSpec, CliErrorKind, CliParser, CliSpec, CommandSpec, OptionSpec, RawArgs, ValueType};

fn failure(spec: &CliSpec, words: &[&str]) -> (CliErrorKind, String) {
    let error = CliParser::new(spec).parse(&RawArgs::parse(words).unwrap()).unwrap_err();
    (error.kind(), error.message().to_string())
}

#[test]
fn option_diagnostics_name_the_option() {
    let spec = CliSpec::new("demo")
        .option(OptionSpec::flag("force").short('f'))
        .option(OptionSpec::value("count").value_type(ValueType::U64))
        .option(OptionSpec::value("format").possible_value("json").possible_value("text"));
    assert_eq!(
        failure(&spec, &["--force", "--force"]),
        (CliErrorKind::DuplicateOption, "option `--force` cannot be repeated".to_string())
    );
    assert_eq!(
        failure(&spec, &["--count", "ten"]),
        (CliErrorKind::InvalidValue, "invalid value `ten` for `--count`; expected an unsigned integer".to_string())
    );
    assert_eq!(
        failure(&spec, &["--format", "jsn"]),
        (
            CliErrorKind::InvalidValue,
            "invalid value `jsn` for `--format`; expected one of: json, text; did you mean `json`?".to_string()
        )
    );
    assert_eq!(
        failure(&spec, &["--force=yes"]),
        (CliErrorKind::InvalidValue, "option `--force` does not accept a value".to_string())
    );
    assert_eq!(failure(&spec, &["--count"]), (CliErrorKind::MissingValue, "option `--count` requires a value".to_string()));
    assert_eq!(
        failure(&spec, &["--=x"]),
        (CliErrorKind::UnknownOption, "empty long option is not accepted".to_string())
    );
    assert_eq!(failure(&spec, &["-x"]), (CliErrorKind::UnknownOption, "unknown option `-x`".to_string()));
    assert_eq!(
        failure(&spec, &["--forse"]),
        (CliErrorKind::UnknownOption, "unknown option `--forse`; did you mean `--force`?".to_string())
    );
    assert_eq!(
        failure(&spec, &["--zzzzzzzz"]),
        (CliErrorKind::UnknownOption, "unknown option `--zzzzzzzz`".to_string())
    );
}

#[test]
fn positional_diagnostics_name_the_word() {
    let commands = CliSpec::new("demo")
        .command(CommandSpec::new("publish").alias("pub"))
        .command(CommandSpec::new("secret").hidden(true));
    assert_eq!(
        failure(&commands, &["publsh"]),
        (CliErrorKind::UnexpectedArgument, "unknown command `publsh`; did you mean `publish`?".to_string())
    );
    assert_eq!(
        failure(&commands, &["secre"]),
        (CliErrorKind::UnexpectedArgument, "unknown command `secre`".to_string())
    );
    let arguments = CliSpec::new("demo").argument(ArgumentSpec::new("count").value_type(ValueType::I64));
    assert_eq!(
        failure(&arguments, &["1", "2"]),
        (CliErrorKind::UnexpectedArgument, "unexpected argument `2`".to_string())
    );
    assert_eq!(
        failure(&arguments, &["many"]),
        (CliErrorKind::InvalidValue, "invalid value `many` for `count`; expected a signed integer".to_string())
    );
}

#[test]
fn completion_rules_name_what_is_missing() {
    let nested = CliSpec::new("demo")
        .command_required(true)
        .command(CommandSpec::new("remote").command_required(true).command(CommandSpec::new("add")));
    assert_eq!(
        failure(&nested, &[]),
        (CliErrorKind::MissingCommand, "a command is required after `demo`".to_string())
    );
    assert_eq!(
        failure(&nested, &["remote"]),
        (CliErrorKind::MissingCommand, "a command is required after `remote`".to_string())
    );
    let arguments = CliSpec::new("demo")
        .argument(ArgumentSpec::new("source").required(true))
        .argument(ArgumentSpec::new("target").required(true));
    assert_eq!(
        failure(&arguments, &["a"]),
        (CliErrorKind::MissingValue, "missing required argument `<target>`".to_string())
    );
    let rules = CliSpec::new("demo")
        .option(OptionSpec::value("token").required(true))
        .option(OptionSpec::flag("json").conflicts_with("plain").requires_option("pretty"))
        .option(OptionSpec::flag("plain"))
        .option(OptionSpec::flag("pretty"));
    assert_eq!(
        failure(&rules, &[]),
        (CliErrorKind::MissingOption, "required option `--token` was not provided".to_string())
    );
    assert_eq!(
        failure(&rules, &["--token", "t", "--json", "--plain"]),
        (CliErrorKind::OptionConflict, "option `--json` conflicts with `--plain`".to_string())
    );
    assert_eq!(
        failure(&rules, &["--token", "t", "--json"]),
        (CliErrorKind::MissingRequirement, "option `--json` requires `--pretty`".to_string())
    );
}

#[test]
fn raw_argument_diagnostics_name_the_limit() {
    let limits = ArgLimits { max_words: 2, max_word_bytes: 3, max_total_bytes: 5 };
    assert_eq!(
        RawArgs::parse_with_limits(&["a", "b", "c"], limits).unwrap_err().message(),
        "argument count exceeds limit of 2"
    );
    assert_eq!(
        RawArgs::parse_with_limits(&["a", "bcde"], limits).unwrap_err().message(),
        "argument 2 exceeds byte limit of 3"
    );
    assert_eq!(
        RawArgs::parse_with_limits(&["abc", "def"], limits).unwrap_err().message(),
        "total argument bytes exceed limit of 5"
    );
    assert_eq!(RawArgs::parse_with_limits(&["a\0"], limits).unwrap_err().message(), "argument 1 contains a NUL byte");
}
