use appcore::cli::suggestion::closest;
use appcore::{
    render_dynamic_completion_script, ArgumentSpec, CliSpec, CommandSpec, CompletionEngine, CompletionKind,
    CompletionRequest, HelpRenderer, OptionSpec, Shell, ValueType,
};

#[test]
fn rejects_duplicate_command_aliases() {
    let spec = CliSpec::new("demo").command(CommandSpec::new("run").alias("start")).command(CommandSpec::new("start"));
    assert!(spec.validate().unwrap_err().message().contains("duplicate command or alias"));
}

#[test]
fn rejects_non_terminal_variadic_argument() {
    let spec = CliSpec::new("demo").argument(ArgumentSpec::new("files").multiple(true)).argument(ArgumentSpec::new("out"));
    assert!(spec.validate().unwrap_err().message().contains("must be last"));
}

#[test]
fn rejects_unknown_option_relationship() {
    let spec = CliSpec::new("demo").option(OptionSpec::flag("json").requires_option("output"));
    assert!(spec.validate().unwrap_err().message().contains("unknown or self option"));
}

#[test]
fn rejects_an_option_that_shadows_an_inherited_option() {
    let spec = CliSpec::new("demo")
        .option(OptionSpec::flag("verbose").short('v'))
        .command(CommandSpec::new("run").option(OptionSpec::flag("verbose")));
    assert!(spec.validate().unwrap_err().message().contains("duplicate option"));
}

#[test]
fn well_formed_specification_validates() {
    let spec = CliSpec::new("demo")
        .option(OptionSpec::flag("json").conflicts_with("plain"))
        .option(OptionSpec::flag("plain"))
        .command(CommandSpec::new("run").alias("start").argument(ArgumentSpec::new("files").multiple(true)));
    assert!(spec.validate().is_ok());
}

#[test]
fn renders_root_and_command_help() {
    let spec = CliSpec::new("demo")
        .version("1.0.0")
        .about("Demo tool.")
        .option(OptionSpec::flag("help").short('h').about("Show help."))
        .command(CommandSpec::new("run").about("Run it.").argument(ArgumentSpec::new("file").required(true)));
    let root = HelpRenderer::new(&spec).render(&[]).unwrap();
    let command = HelpRenderer::new(&spec).render(&["run"]).unwrap();
    assert!(root.contains("demo 1.0.0"));
    assert!(root.contains("Commands:"));
    assert!(command.contains("demo run [OPTIONS] <file>"));
}

#[test]
fn nested_help_includes_inherited_options() {
    let spec = CliSpec::new("demo").command(
        CommandSpec::new("publish").option(OptionSpec::flag("dry-run")).command(CommandSpec::new("status")),
    );
    let help = HelpRenderer::new(&spec).render(&["publish", "status"]).unwrap();
    assert!(help.contains("demo publish status [OPTIONS]"));
    assert!(help.contains("--dry-run"));
}

#[test]
fn help_renders_exact_layout() {
    let spec = CliSpec::new("demo")
        .about("Demo tool.")
        .option(OptionSpec::value("out").short('o').about("Output."))
        .argument(ArgumentSpec::new("file").about("Input."));
    let help = HelpRenderer::new(&spec).render(&[]).unwrap();
    assert_eq!(
        help,
        "demo\nDemo tool.\n\nUsage:\n  demo [OPTIONS] [file]\n\nArguments:\n  [file]  Input.\n\nOptions:\n  -o, --out <VALUE>  Output.\n"
    );
}

#[test]
fn help_for_unknown_command_is_refused() {
    let spec = CliSpec::new("demo").command(CommandSpec::new("run"));
    let error = HelpRenderer::new(&spec).render(&["walk", "fast"]).unwrap_err();
    assert_eq!(error.message(), "unknown help command `walk fast`");
}

#[test]
fn help_width_never_drops_below_forty() {
    let spec = CliSpec::new("demo").option(OptionSpec::flag("a-very-long-option-name-indeed").about("x"));
    let narrow = HelpRenderer::new(&spec).width(10).render(&[]).unwrap();
    let forty = HelpRenderer::new(&spec).width(40).render(&[]).unwrap();
    assert_eq!(narrow, forty);
}

#[test]
fn renders_bash_script_for_binary() {
    let script = render_dynamic_completion_script("appcore-dev", &["complete"], Shell::Bash).unwrap();
    assert!(script.contains("complete -o bashdefault -o default -F _appcore_dev_complete appcore-dev"));
}

#[test]
fn generated_scripts_preserve_native_file_completion() {
    let zsh = render_dynamic_completion_script("demo", &["complete"], Shell::Zsh).unwrap();
    let fish = render_dynamic_completion_script("demo", &["complete"], Shell::Fish).unwrap();
    let powershell = render_dynamic_completion_script("demo", &["complete"], Shell::PowerShell).unwrap();
    assert!(zsh.contains("_files"));
    assert!(!fish.contains(" -f "));
    assert!(powershell.contains("Get-ChildItem"));
}

#[test]
fn rejects_shell_metacharacters_in_command_tokens() {
    let error = render_dynamic_completion_script("appcore-dev;echo", &["complete"], Shell::PowerShell).unwrap_err();
    assert!(error.message().contains("unsafe binary token"));
}

#[test]
fn rejects_unsafe_completion_command_parts() {
    let error = render_dynamic_completion_script("demo", &["ok", "bad part", "worse;"], Shell::Bash).unwrap_err();
    assert_eq!(error.message(), "unsafe completion command token `bad part`");
}

#[test]
fn fish_script_is_exact() {
    let fish = render_dynamic_completion_script("demo", &["complete", "now"], Shell::Fish).unwrap();
    assert_eq!(
        fish,
        "complete -c demo -a '(set -l words (commandline -opc); set -a words (commandline -ct); set -l cursor (math (count $words) - 1); demo complete now fish $cursor $words)'\n"
    );
}

#[test]
fn shell_names_round_trip() {
    for shell in [Shell::Bash, Shell::Zsh, Shell::Fish, Shell::PowerShell] {
        assert_eq!(Shell::parse(shell.display_text()), Some(shell));
    }
    assert_eq!(Shell::parse("pwsh"), Some(Shell::PowerShell));
    assert_eq!(Shell::parse("cmd"), None);
}

#[test]
fn finds_close_candidates_and_bounds_large_input() {
    let candidates = vec!["publish".to_string(), "status".to_string()];
    assert_eq!(closest("publsh", &candidates).map(|i| candidates[i].as_str()), Some("publish"));
    assert_eq!(closest(&"x".repeat(129), &["publish".to_string()]), None);
    assert_eq!(closest("unrelated", &candidates), None);
}

#[test]
fn closest_prefers_the_shorter_of_equally_close_candidates() {
    let candidates = vec!["stats".to_string(), "stat".to_string()];
    assert_eq!(closest("sta", &candidates).map(|i| candidates[i].as_str()), Some("stat"));
}

#[test]
fn completes_nested_commands_and_inherited_options() {
    let spec = CliSpec::new("demo")
        .option(OptionSpec::flag("verbose"))
        .command(CommandSpec::new("publish").command(CommandSpec::new("status")));
    let nested = CompletionRequest::new(vec!["demo".into(), "publish".into(), "s".into()], 2);
    let options = CompletionRequest::new(vec!["demo".into(), "publish".into(), "--v".into()], 2);
    assert_eq!(CompletionEngine::new(&spec).complete(&nested)[0].value(), "status");
    assert_eq!(CompletionEngine::new(&spec).complete(&options)[0].value(), "--verbose");
}

#[test]
fn completes_option_and_argument_values() {
    let spec = CliSpec::new("demo")
        .option(OptionSpec::value("color").possible_value("red").possible_value("green"))
        .argument(ArgumentSpec::new("mode").possible_value("fast"));
    let option = CompletionRequest::new(vec!["demo".into(), "--color".into(), "g".into()], 2);
    let inline = CompletionRequest::new(vec!["demo".into(), "--color=r".into()], 1);
    let argument = CompletionRequest::new(vec!["demo".into(), "f".into()], 1);
    assert_eq!(CompletionEngine::new(&spec).complete(&option)[0].value(), "green");
    assert_eq!(CompletionEngine::new(&spec).complete(&inline)[0].value(), "--color=red");
    assert_eq!(CompletionEngine::new(&spec).complete(&argument)[0].kind(), CompletionKind::Value);
}

#[test]
fn hides_hidden_and_consumed_non_repeatable_options() {
    let spec = CliSpec::new("demo").option(OptionSpec::flag("visible")).option(OptionSpec::flag("internal").hidden(true));
    let request = CompletionRequest::new(vec!["demo".into(), "--visible".into(), "--".into()], 2);
    assert!(CompletionEngine::new(&spec).complete(&request).is_empty());
}

#[test]
fn invalid_specs_do_not_produce_candidates() {
    let spec = CliSpec::new("demo").option(OptionSpec::flag("verbose")).option(OptionSpec::flag("verbose"));
    let request = CompletionRequest::new(vec!["demo".into(), "--v".into()], 1);
    assert!(CompletionEngine::new(&spec).complete(&request).is_empty());
}

#[test]
fn completes_declared_negative_positional_values() {
    let spec = CliSpec::new("demo").argument(ArgumentSpec::new("offset").value_type(ValueType::I64).possible_value("-10"));
    let request = CompletionRequest::new(vec!["demo".into(), "-1".into()], 1);
    let candidates = CompletionEngine::new(&spec).complete(&request);
    assert!(candidates.iter().any(|candidate| candidate.value() == "-10"));
}
