use iranta::args::{ArgContext, OptionArg};

fn parse(args: &[&str]) -> Result<ArgContext, String> {
    let owned: Vec<String> = args.iter().map(|arg| arg.to_string()).collect();
    ArgContext::parse_args(&owned)
}

#[test]
fn source_file_alone() {
    let context = parse(&["main.ira"]).unwrap();
    assert_eq!(context.option_args, vec![]);
    assert_eq!(context.file_name, Some("main.ira".to_string()));
}

#[test]
fn every_plain_option_is_recognized() {
    let context = parse(&[
        "--debug-print-token",
        "--debug-print-ast",
        "--emit-llvm",
        "-O0",
        "--no-optimize",
        "main.ira",
    ])
    .unwrap();
    assert_eq!(
        context.option_args,
        vec![
            OptionArg::DebugPrintToken,
            OptionArg::DebugPrintAST,
            OptionArg::EmitLLVM,
            OptionArg::NoOptimize,
            OptionArg::NoOptimize,
        ]
    );
    assert_eq!(context.file_name, Some("main.ira".to_string()));
}

#[test]
fn version_needs_no_source_file() {
    let context = parse(&["-v"]).unwrap();
    assert_eq!(context.option_args, vec![OptionArg::Version]);
    assert_eq!(context.file_name, None);
    let context = parse(&["--version"]).unwrap();
    assert_eq!(context.option_args, vec![OptionArg::Version]);
}

#[test]
fn output_takes_the_argument_behind_it() {
    let context = parse(&["main.ira", "-o", "out"]).unwrap();
    assert_eq!(context.option_args, vec![OptionArg::Output("out".to_string())]);
    assert_eq!(context.file_name, Some("main.ira".to_string()));
    let context = parse(&["--output", "-weird", "main.ira"]).unwrap();
    assert_eq!(context.option_args, vec![OptionArg::Output("-weird".to_string())]);
    assert_eq!(context.file_name, Some("main.ira".to_string()));
}

#[test]
fn output_without_a_path_is_an_error() {
    assert_eq!(parse(&["main.ira", "-o"]), Err("No output file specified".to_string()));
    assert_eq!(parse(&["--output"]), Err("No output file specified".to_string()));
}

#[test]
fn unknown_flag_is_an_error() {
    assert_eq!(parse(&["--frobnicate", "main.ira"]), Err("Invalid argument: --frobnicate".to_string()));
    assert_eq!(parse(&["-"]), Err("Invalid argument: -".to_string()));
}

#[test]
fn missing_source_file_is_an_error() {
    assert_eq!(parse(&[]), Err("No source file provided.".to_string()));
    assert_eq!(parse(&["--emit-llvm"]), Err("No source file provided.".to_string()));
}

#[test]
fn the_last_source_file_wins() {
    let context = parse(&["a.ira", "b.ira"]).unwrap();
    assert_eq!(context.file_name, Some("b.ira".to_string()));
}

#[test]
fn empty_argument_is_a_file_name() {
    let context = parse(&[""]).unwrap();
    assert_eq!(context.file_name, Some(String::new()));
}

#[test]
fn the_last_output_option_names_the_artifact() {
    let context = parse(&["main.ira"]).unwrap();
    assert_eq!(context.output_path("main.ira"), "main.ira");
    let context = parse(&["-o", "first", "main.ira", "--emit-llvm", "--output", "second"]).unwrap();
    assert_eq!(context.output_path("main.ira"), "second");
    let context = parse(&["main.ira", "-o", "only", "-O0"]).unwrap();
    assert_eq!(context.output_path("main.ira"), "only");
    let context = ArgContext { option_args: vec![OptionArg::EmitLLVM], file_name: None };
    assert_eq!(context.output_path(""), "");
}
