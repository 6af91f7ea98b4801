use sniprun::data::to_host_line_range;
use sniprun::messages::Messages;
use sniprun::session::{escape_quotes, format_output, trim_trailing_ws, unescape_quotes};
use sniprun::strings::{join_lines, split_after_last, str_eq, str_is_blank, u64_to_dec};
use sniprun::DataHolder;

#[test]
fn quotes_are_escaped_for_delivery() {
    let delivered = format_output("He said \"hi\"");
    assert_eq!(delivered.as_str(), "He said \\\"hi\\\"");
}

#[test]
fn already_escaped_quotes_are_not_doubled() {
    let delivered = format_output("He said \\\"hi\\\"");
    assert_eq!(delivered.as_str(), "He said \\\"hi\\\"");
}

#[test]
fn trailing_whitespace_is_trimmed_for_delivery() {
    assert_eq!(format_output("1\n").as_str(), "1");
    assert_eq!(format_output("a b \t\r\n").as_str(), "a b");
    assert_eq!(format_output("").as_str(), "");
    assert_eq!(format_output(" \n\t").as_str(), "");
}

#[test]
fn escaping_pieces_work_alone() {
    assert_eq!(unescape_quotes("a\\\"b").as_str(), "a\"b");
    assert_eq!(unescape_quotes("a\\b").as_str(), "a\\b");
    assert_eq!(escape_quotes("a\"b").as_str(), "a\\\"b");
    assert_eq!(escape_quotes("plain").as_str(), "plain");
    assert_eq!(trim_trailing_ws("  x  ").as_str(), "  x");
}

#[test]
fn counters_render_in_decimal() {
    assert_eq!(u64_to_dec(0).as_str(), "0");
    assert_eq!(u64_to_dec(7).as_str(), "7");
    assert_eq!(u64_to_dec(10).as_str(), "10");
    assert_eq!(u64_to_dec(90217).as_str(), "90217");
    assert_eq!(u64_to_dec(u64::MAX).as_str(), "18446744073709551615");
}

#[test]
fn string_helpers_behave() {
    assert!(str_eq("abc", "abc"));
    assert!(!str_eq("abc", "abd"));
    assert!(!str_eq("abc", "ab"));
    assert!(str_eq("", ""));
    assert!(str_is_blank(""));
    assert!(str_is_blank(" \t\n\r"));
    assert!(!str_is_blank(" x "));
    assert_eq!(split_after_last("filetype=rust", '=').as_str(), "rust");
    assert_eq!(split_after_last("a=b=c", '=').as_str(), "c");
    assert_eq!(split_after_last("no-equals", '=').as_str(), "no-equals");
    assert_eq!(split_after_last("ends=", '=').as_str(), "");
    let lines = vec![
        String::from("let x = 1;"),
        String::from("println!(\"{}\", x);"),
    ];
    assert_eq!(
        join_lines(&lines).as_str(),
        "let x = 1;\nprintln!(\"{}\", x);"
    );
    assert_eq!(join_lines(&vec![]).as_str(), "");
    assert_eq!(join_lines(&vec![String::from("one")]).as_str(), "one");
}

#[test]
fn event_names_decode_to_messages() {
    assert!(matches!(Messages::from(String::from("run")), Messages::Run));
    assert!(matches!(
        Messages::from(String::from("clean")),
        Messages::Clean
    ));
    match Messages::from(String::from("resize")) {
        Messages::Unknown(name) => assert_eq!(name.as_str(), "resize"),
        _ => panic!("expected an unknown event"),
    }
}

#[test]
fn a_fresh_context_is_empty() {
    let data = DataHolder::new(String::from("/tmp/cache/sniprun"));
    assert_eq!(data.filetype.as_str(), "");
    assert_eq!(data.current_line.as_str(), "");
    assert_eq!(data.current_bloc.as_str(), "");
    assert_eq!(data.range, [-1, -1]);
    assert_eq!(data.filepath.as_str(), "");
    assert_eq!(data.work_dir.as_str(), "/tmp/cache/sniprun");
    assert!(data.dependencies_path.is_empty());
}

#[test]
fn filling_a_context_captures_the_request() {
    let mut data = DataHolder::new(String::from("/tmp/cache/sniprun"));
    let lines = vec![String::from("let x = 1;"), String::from("x += 1;")];
    data.fill_data(
        3,
        4,
        String::from("/opt/sniprun"),
        "filetype=rust",
        String::from("let x = 1;"),
        &lines,
        String::from("/home/user/demo.rs"),
    );
    assert_eq!(data.range, [3, 4]);
    assert_eq!(data.sniprun_root_dir.as_str(), "/opt/sniprun");
    assert_eq!(data.filetype.as_str(), "rust");
    assert_eq!(data.current_line.as_str(), "let x = 1;");
    assert_eq!(data.current_bloc.as_str(), "let x = 1;\nx += 1;");
    assert_eq!(data.filepath.as_str(), "/home/user/demo.rs");
    assert_eq!(data.work_dir.as_str(), "/tmp/cache/sniprun");
}

#[test]
fn inclusive_bounds_convert_to_host_indexing() {
    assert_eq!(to_host_line_range(3, 4), (2, 4));
    assert_eq!(to_host_line_range(1, 1), (0, 1));
}
