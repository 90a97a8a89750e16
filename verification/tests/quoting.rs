use linuxdo_accelerator::quoting::{
    applescript_escape, powershell_literal, shell_join, shell_quote, shell_quote_arg,
    windows_command_line, windows_quote_arg,
};

fn strings(items: &[&str]) -> Vec<String> {
    items.iter().map(|item| item.to_string()).collect()
}

#[test]
fn shell_quote_closes_apostrophes() {
    assert_eq!(shell_quote("it's"), "'it'\"'\"'s'");
    assert_eq!(shell_quote("a b"), "'a b'");
}

#[test]
fn shell_quote_arg_keeps_an_empty_argument() {
    assert_eq!(shell_quote_arg(""), "''");
    assert_eq!(shell_quote_arg("x'y"), "'x'\"'\"'y'");
}

#[test]
fn shell_join_separates_words_with_blanks() {
    assert_eq!(
        shell_join("/opt/my app", &strings(&["--config", "/tmp/it's.toml"])),
        "'/opt/my app' '--config' '/tmp/it'\"'\"'s.toml'"
    );
    assert_eq!(shell_join("x", &strings(&[])), "'x'");
}

#[test]
fn windows_quote_arg_leaves_plain_words_alone() {
    assert_eq!(windows_quote_arg("helper-start"), "helper-start");
    assert_eq!(windows_quote_arg("C:\\dir\\"), "C:\\dir\\");
    assert_eq!(windows_quote_arg(""), "\"\"");
}

#[test]
fn windows_quote_arg_doubles_backslashes() {
    assert_eq!(windows_quote_arg("a b\\"), "\"a b\\\\\"");
    assert_eq!(windows_quote_arg("a\\\\b c"), "\"a\\\\b c\"");
    assert_eq!(windows_quote_arg("say \"hi\""), "\"say \\\"hi\\\"\"");
    assert_eq!(windows_quote_arg("a\\\"b"), "\"a\\\\\\\"b\"");
}

#[test]
fn windows_command_line_joins_quoted_arguments() {
    assert_eq!(
        windows_command_line(&strings(&["--config", "C:\\My Files\\a.toml", "helper-stop"])),
        "--config \"C:\\My Files\\a.toml\" helper-stop"
    );
}

#[test]
fn applescript_escape_doubles_before_quoting() {
    assert_eq!(applescript_escape("a\\b\"c"), "a\\\\b\\\"c");
}

#[test]
fn powershell_literal_doubles_apostrophes() {
    assert_eq!(powershell_literal("C:\\it's\\app.exe"), "C:\\it''s\\app.exe");
}
