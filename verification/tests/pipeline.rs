use pydis::compiler::{compile_report, header_line};
use pydis::errors::CliError;
use pydis::escape::escape_str;
use pydis::modes::{parse_mode, ExecutionMode};
use pydis::paths::{file_name_of, resolve_source};
use pydis::{resolve_run, Configuration};

fn config(path: &str, mode: ExecutionMode, optimize: u8) -> Configuration {
    Configuration {
        source_path: path.to_owned(),
        mode,
        optimize,
    }
}

/// The single compile attempt as the shell makes it: the real compiler,
/// its outcome handed on as a plain value.
fn compile_outcome(source: &str, mode: ExecutionMode, name: &str, optimize: u8) -> Result<String, String> {
    let mode = match mode {
        ExecutionMode::Exec => rustpython_compiler::Mode::Exec,
        ExecutionMode::Eval => rustpython_compiler::Mode::Eval,
        ExecutionMode::Single => rustpython_compiler::Mode::Single,
        ExecutionMode::BlockExpr => rustpython_compiler::Mode::BlockExpr,
    };
    let opts = rustpython_compiler::CompileOpts { optimize };
    rustpython_compiler::compile(source, mode, name.to_owned(), opts)
        .map(|code| code.display_expand_code_objects().to_string())
        .map_err(|e| e.to_string())
}

#[test]
fn parse_mode_accepts_the_four_tokens() {
    assert!(matches!(parse_mode("exec"), Ok(ExecutionMode::Exec)));
    assert!(matches!(parse_mode("eval"), Ok(ExecutionMode::Eval)));
    assert!(matches!(parse_mode("single"), Ok(ExecutionMode::Single)));
    assert!(matches!(parse_mode("block-expr"), Ok(ExecutionMode::BlockExpr)));
}

#[test]
fn parse_mode_rejects_everything_else() {
    for bad in ["", "Exec", "EVAL", " exec", "exec ", "block_expr", "evaluate"] {
        match parse_mode(bad) {
            Err(CliError::InvalidMode { token }) => assert_eq!(token, bad),
            _ => panic!("token {:?} was not rejected", bad),
        }
    }
}

#[test]
fn invalid_mode_message_escapes_the_token() {
    let err = parse_mode("ex\nec\"").unwrap_err();
    let message = err.message();
    assert_eq!(message, "Invalid mode name `ex\\nec\\\"`");
}

#[test]
fn default_mode_is_whole_program() {
    assert!(matches!(ExecutionMode::default(), ExecutionMode::Exec));
}

#[test]
fn escaping_matches_the_default_rust_escapes() {
    for s in [
        "plain.py",
        "with space.py",
        "quote\"and\\slash",
        "tab\there",
        "line\nbreak\rdone",
        "caf\u{e9}.py",
        "\u{3c0}\u{7f}\u{0}",
        "'single'",
    ] {
        assert_eq!(escape_str(s), s.escape_default().to_string());
    }
}

#[test]
fn escaping_renders_controls_and_quotes_visibly() {
    assert_eq!(escape_str("a\"b"), "a\\\"b");
    assert_eq!(escape_str("a\u{1}b"), "a\\u{1}b");
    assert_eq!(escape_str("a\tb"), "a\\tb");
}

#[test]
fn header_names_the_artifact_escaped() {
    assert_eq!(header_line("example.py"), "dis(\"example.py\"):");
    assert_eq!(header_line("we\"ird\n.py"), "dis(\"we\\\"ird\\n.py\"):");
}

#[test]
fn file_name_takes_the_final_component() {
    assert_eq!(file_name_of("/home/user/example.py"), Some("example.py".to_owned()));
    assert_eq!(file_name_of("/example.py"), Some("example.py".to_owned()));
    assert_eq!(file_name_of("/"), None);
    assert_eq!(file_name_of(""), None);
}

#[test]
fn unreadable_source_fails_before_path_resolution() {
    // Whether or not canonicalization would have succeeded, a failed read
    // is reported as a read error, never as a resolution error.
    let r = resolve_run(&config("missing.py", ExecutionMode::Exec, 0), None, None);
    match r {
        Err(CliError::SourceRead { path }) => assert_eq!(path, "missing.py"),
        _ => panic!("expected a read error"),
    }
    let r = resolve_run(
        &config("missing.py", ExecutionMode::Exec, 0),
        None,
        Some("/tmp/missing.py".to_owned()),
    );
    assert!(matches!(r, Err(CliError::SourceRead { .. })));
}

#[test]
fn failed_canonicalization_is_a_resolution_error() {
    let r = resolve_run(
        &config("gone.py", ExecutionMode::Exec, 0),
        Some("x = 1\n".to_owned()),
        None,
    );
    match r {
        Err(CliError::PathResolution { path }) => assert_eq!(path, "gone.py"),
        _ => panic!("expected a resolution error"),
    }
}

#[test]
fn canonical_root_has_no_file_name() {
    let r = resolve_run(
        &config("/", ExecutionMode::Exec, 0),
        Some("x = 1\n".to_owned()),
        Some("/".to_owned()),
    );
    match r {
        Err(CliError::MissingFileName { path }) => assert_eq!(path, "/"),
        _ => panic!("expected a missing-file-name error"),
    }
}

#[test]
fn valid_source_produces_a_named_nonempty_disassembly() {
    let resolved = resolve_run(
        &config("./example.py", ExecutionMode::Exec, 0),
        Some("x = 1\nprint(x)\n".to_owned()),
        Some("/tmp/example.py".to_owned()),
    )
    .expect("both filesystem steps succeeded");
    let outcome = compile_outcome(&resolved.text, ExecutionMode::Exec, &resolved.display_name, 0);
    let report = compile_report(outcome, resolved.display_name.as_str())
        .expect("a well-formed source must compile");
    assert_eq!(report.header, "dis(\"example.py\"):");
    assert!(!report.disassembly.is_empty());
    assert_ne!(report.disassembly, "x = 1\nprint(x)\n");
}

#[test]
fn eval_mode_compiles_an_expression() {
    let outcome = compile_outcome("1 + 2", ExecutionMode::Eval, "expr.py", 0);
    assert!(compile_report(outcome, "expr.py").is_ok());
}

#[test]
fn syntax_error_is_a_compilation_error_and_yields_no_report() {
    let outcome = compile_outcome("def f(:\n", ExecutionMode::Exec, "bad.py", 0);
    assert!(outcome.is_err());
    let r = compile_report(outcome, "bad.py");
    match r {
        Err(CliError::Compilation { .. }) => {}
        _ => panic!("expected a compilation error"),
    }
    let message = r.unwrap_err().message();
    assert!(message.starts_with("Failed to compile bytecode: "));
}

#[test]
fn quoted_file_name_is_escaped_in_the_header() {
    let resolved = resolve_run(
        &config("odd.py", ExecutionMode::Exec, 0),
        Some("x = 1\n".to_owned()),
        Some("/tmp/a\"b.py".to_owned()),
    )
    .expect("both filesystem steps succeeded");
    let outcome = compile_outcome(&resolved.text, ExecutionMode::Exec, &resolved.display_name, 0);
    let report = compile_report(outcome, resolved.display_name.as_str())
        .expect("the source is well-formed");
    assert_eq!(report.header, "dis(\"a\\\"b.py\"):");
    assert!(!report.header.contains("a\"b"));
}

#[test]
fn compiling_twice_is_byte_identical() {
    let make = || {
        let outcome = compile_outcome(
            "def g(n):\n    return n * 2\n",
            ExecutionMode::Exec,
            "same.py",
            1,
        );
        compile_report(outcome, "same.py").expect("the source is well-formed")
    };
    let first = make();
    let second = make();
    assert_eq!(first.header, second.header);
    assert_eq!(first.disassembly, second.disassembly);
}

#[test]
fn error_messages_name_the_operation_and_subject() {
    let read = CliError::SourceRead { path: "a.py".to_owned() };
    assert_eq!(read.message(), "Unable to read a.py");
    let resolve = CliError::PathResolution { path: "b.py".to_owned() };
    assert_eq!(resolve.message(), "Unable to resolve path: b.py");
    let name = CliError::MissingFileName { path: "/".to_owned() };
    assert_eq!(name.message(), "Expected source path to have filename: /");
    let compilation = CliError::Compilation { diagnostic: "bad input".to_owned() };
    assert_eq!(compilation.message(), "Failed to compile bytecode: bad input");
}

#[test]
fn resolution_keeps_text_and_canonical_path() {
    let r = resolve_source(
        "./x.py",
        Some("pass\n".to_owned()),
        Some("/srv/x.py".to_owned()),
    );
    let resolved = r.expect("both steps succeeded");
    assert_eq!(resolved.text, "pass\n");
    assert_eq!(resolved.canonical, "/srv/x.py");
    assert_eq!(resolved.display_name, "x.py");
}

#[test]
fn optimize_level_changes_the_emitted_bytecode() {
    // optimize > 0 drops assert statements from the emitted bytecode.
    let source = "assert True\n";
    let plain = compile_outcome(source, ExecutionMode::Exec, "opt.py", 0)
        .expect("well-formed");
    let optimized = compile_outcome(source, ExecutionMode::Exec, "opt.py", 2)
        .expect("well-formed");
    assert_ne!(plain, optimized);
}
