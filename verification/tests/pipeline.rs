use sniprun::interpreter::{ProcessOutcome, Rust_original};
use sniprun::launcher::{is_registered, Launcher};
use sniprun::session::format_output;
use sniprun::support::SupportLevel;
use sniprun::{DataHolder, SniprunError};

fn context(filetype: &str, line: &str, bloc: &str) -> DataHolder {
    let mut data = DataHolder::new(String::from("/tmp/sniprun_cache"));
    data.filetype = String::from(filetype);
    data.current_line = String::from(line);
    data.current_bloc = String::from(bloc);
    data
}

fn ok_outcome(stdout: &str) -> ProcessOutcome {
    ProcessOutcome {
        success: true,
        stdout: String::from(stdout),
        stderr: String::new(),
    }
}

fn failed_outcome(stderr: &str) -> ProcessOutcome {
    ProcessOutcome {
        success: false,
        stdout: String::new(),
        stderr: String::from(stderr),
    }
}

#[test]
fn registry_knows_the_rust_aliases() {
    assert!(is_registered("rust"));
    assert!(is_registered("rust-lang"));
    assert!(is_registered("rs"));
    assert!(!is_registered("python"));
    assert!(!is_registered("Rust"));
    assert!(!is_registered(""));
    let aliases = Rust_original::get_supported_languages();
    let aliases: Vec<&str> = aliases.iter().map(|s| s.as_str()).collect();
    assert_eq!(aliases, vec!["rust", "rust-lang", "rs"]);
}

#[test]
fn unregistered_filetype_is_refused_without_a_backend() {
    let data = context("python", "print(1)", "");
    let launcher = Launcher::new(data);
    let selected = launcher.select(0);
    match selected {
        Err(SniprunError::UnsupportedLanguage(ft)) => assert_eq!(ft.as_str(), "python"),
        _ => panic!("expected an unsupported-language error"),
    }
    // The full pipeline gives the same refusal whatever the process
    // outcomes would have been.
    let r = launcher.select_and_run(0, &ok_outcome("ignored"), &ok_outcome("ignored"));
    match r {
        Err(SniprunError::UnsupportedLanguage(ft)) => assert_eq!(ft.as_str(), "python"),
        _ => panic!("expected an unsupported-language error"),
    }
}

#[test]
fn bloc_level_backend_prefers_the_selection() {
    let data = context("rust", "let line = 2;", "let bloc = 1;");
    let mut backend = Rust_original::new_with_level(data, SupportLevel::Bloc, 0);
    backend.fetch_code().unwrap();
    assert_eq!(backend.code.as_str(), "let bloc = 1;");
}

#[test]
fn line_level_backend_ignores_the_selection() {
    let data = context("rust", "let line = 2;", "let bloc = 1;");
    let mut backend = Rust_original::new_with_level(data, SupportLevel::Line, 0);
    backend.fetch_code().unwrap();
    assert_eq!(backend.code.as_str(), "let line = 2;");
}

#[test]
fn blank_selection_falls_back_to_the_line() {
    let data = context("rust", "let line = 2;", " \t\r\n ");
    let mut backend = Rust_original::new_with_level(data, SupportLevel::Bloc, 0);
    backend.fetch_code().unwrap();
    assert_eq!(backend.code.as_str(), "let line = 2;");
}

#[test]
fn blank_everything_stages_nothing() {
    let data = context("rust", "   ", " \n ");
    let mut backend = Rust_original::new_with_level(data, SupportLevel::Bloc, 0);
    backend.fetch_code().unwrap();
    assert_eq!(backend.code.as_str(), "");
}

#[test]
fn boilerplate_wraps_the_staged_code() {
    let data = context("rust", "", "let x = 1; println!(\"{}\", x);");
    let mut backend = Rust_original::new_with_level(data, SupportLevel::Bloc, 0);
    backend.fetch_code().unwrap();
    backend.add_boilerplate().unwrap();
    assert_eq!(
        backend.code.as_str(),
        "fn main() {let x = 1; println!(\"{}\", x);}"
    );
}

#[test]
fn build_plan_points_inside_the_private_directory() {
    let data = context("rust", "", "let x = 1;");
    let mut backend = Rust_original::new_with_level(data, SupportLevel::Bloc, 7);
    backend.fetch_code().unwrap();
    backend.add_boilerplate().unwrap();
    let plan = backend.build_plan();
    assert_eq!(plan.work_dir.as_str(), "/tmp/sniprun_cache/rust_original/7");
    assert_eq!(
        plan.source_path.as_str(),
        "/tmp/sniprun_cache/rust_original/7/main.rs"
    );
    assert_eq!(
        plan.binary_path.as_str(),
        "/tmp/sniprun_cache/rust_original/7/main"
    );
    assert_eq!(plan.source_code.as_str(), "fn main() {let x = 1;}");
}

#[test]
fn two_invocations_get_disjoint_working_directories() {
    let data_a = context("rust", "", "let x = 1;");
    let data_b = context("rust", "", "let x = 1;");
    let backend_a = Rust_original::new_with_level(data_a, SupportLevel::Bloc, 1);
    let backend_b = Rust_original::new_with_level(data_b, SupportLevel::Bloc, 2);
    assert_ne!(backend_a.rust_work_dir, backend_b.rust_work_dir);
    assert!(!backend_b
        .rust_work_dir
        .starts_with(&format!("{}/", backend_a.rust_work_dir)));
    assert!(!backend_a
        .rust_work_dir
        .starts_with(&format!("{}/", backend_b.rust_work_dir)));
}

#[test]
fn successful_pipeline_returns_the_captured_stdout() {
    let data = context("rust", "", "let x = 1; println!(\"{}\", x);");
    let launcher = Launcher::new(data);
    let r = launcher.select_and_run(0, &ok_outcome(""), &ok_outcome("1\n"));
    match r {
        Ok(out) => {
            let delivered = format_output(out.as_str());
            assert_eq!(delivered.as_str(), "1");
        }
        _ => panic!("expected success"),
    }
}

#[test]
fn failed_build_yields_a_compilation_error_and_skips_execution() {
    let data = context("rust", "", "this is not rust at all");
    let launcher = Launcher::new(data);
    let diagnostic = "error: expected one of `!` or `::`";
    // Whatever the artifact outcome is claimed to be, a failed build
    // short-circuits with the same compilation error.
    let r1 = launcher.select_and_run(0, &failed_outcome(diagnostic), &ok_outcome("junk"));
    let r2 = launcher.select_and_run(0, &failed_outcome(diagnostic), &failed_outcome("junk"));
    for r in [r1, r2] {
        match r {
            Err(SniprunError::CompilationError(d)) => assert_eq!(d.as_str(), diagnostic),
            _ => panic!("expected a compilation error"),
        }
    }
}

#[test]
fn failed_run_yields_a_runtime_error_with_stderr() {
    let data = context("rust", "", "panic!(\"boom\");");
    let launcher = Launcher::new(data);
    let r = launcher.select_and_run(0, &ok_outcome(""), &failed_outcome("boom"));
    match r {
        Err(SniprunError::RuntimeError(d)) => assert_eq!(d.as_str(), "boom"),
        _ => panic!("expected a runtime error"),
    }
}

#[test]
fn backend_levels_and_accessors() {
    assert!(matches!(
        Rust_original::get_max_support_level(),
        SupportLevel::Bloc
    ));
    assert_eq!(Rust_original::get_name().as_str(), "Rust_original");
    let data = context("rs", "line", "bloc");
    let mut backend = Rust_original::new_with_level(data, SupportLevel::Bloc, 0);
    assert!(matches!(backend.get_current_level(), SupportLevel::Bloc));
    backend.set_current_level(SupportLevel::Line);
    assert!(matches!(backend.get_current_level(), SupportLevel::Line));
    let copy = backend.get_data();
    assert_eq!(copy.filetype.as_str(), "rs");
    assert_eq!(copy.current_line.as_str(), "line");
    assert_eq!(copy.current_bloc.as_str(), "bloc");
}

#[test]
fn support_levels_are_totally_ordered() {
    let levels = [
        SupportLevel::Unsupported,
        SupportLevel::Line,
        SupportLevel::Bloc,
        SupportLevel::Import,
        SupportLevel::File,
        SupportLevel::Project,
    ];
    for (i, a) in levels.iter().enumerate() {
        for (j, b) in levels.iter().enumerate() {
            assert_eq!(a.at_least(*b), i >= j);
        }
    }
}

#[test]
fn error_messages_name_their_cause() {
    let e = SniprunError::UnsupportedLanguage(String::from("python"));
    assert_eq!(
        e.message().as_str(),
        "Sniprun does not support the filetype python"
    );
    let e = SniprunError::CompilationError(String::from("bad token"));
    assert_eq!(e.message().as_str(), "Compilation error: bad token");
    let e = SniprunError::CompilationError(String::new());
    assert_eq!(e.message().as_str(), "Compilation error: ");
    let e = SniprunError::RuntimeError(String::from("boom"));
    assert_eq!(e.message().as_str(), "Runtime error: boom");
    let e = SniprunError::InternalFailure(String::from("lost the host"));
    assert_eq!(e.message().as_str(), "Internal error: lost the host");
}
