use nssm_rs::command_line::parse_command_line;
use nssm_rs::install::{join_arguments, service_command_line};

fn split(s: &str) -> Vec<String> {
    parse_command_line(s)
}

fn collapse(s: &str) -> String {
    s.split(|c| c == ' ' || c == '\t')
        .filter(|w| !w.is_empty())
        .collect::<Vec<_>>()
        .join(" ")
}

#[test]
fn split_empty_is_empty() {
    assert_eq!(split(""), Vec::<String>::new());
}

#[test]
fn split_two_words() {
    assert_eq!(split("a b"), vec!["a", "b"]);
}

#[test]
fn split_quoted_word_keeps_space() {
    assert_eq!(split("\"a b\" c"), vec!["a b", "c"]);
}

#[test]
fn split_drops_outer_and_repeated_blanks() {
    assert_eq!(split("  a  b  "), vec!["a", "b"]);
}

#[test]
fn split_tabs_separate_words() {
    assert_eq!(split("a\tb\t\tc"), vec!["a", "b", "c"]);
}

#[test]
fn split_tab_inside_quotes_is_kept() {
    assert_eq!(split("\"x\ty\""), vec!["x\ty"]);
}

#[test]
fn split_quotes_inside_word_are_removed() {
    assert_eq!(split("ab\"c d\"e f"), vec!["abc de", "f"]);
}

#[test]
fn split_empty_quotes_give_no_word() {
    assert_eq!(split("\"\" a"), vec!["a"]);
}

#[test]
fn split_unclosed_quote_runs_to_end() {
    assert_eq!(split("a \"b c"), vec!["a", "b c"]);
}

#[test]
fn split_backslash_is_ordinary() {
    assert_eq!(split("a\\ b"), vec!["a\\", "b"]);
}

#[test]
fn split_keeps_non_ascii() {
    assert_eq!(split("héllo wörld"), vec!["héllo", "wörld"]);
}

#[test]
fn join_of_split_collapses_blanks() {
    for s in ["", "a", "  a  b  ", "x\t\ty z ", "\t", "one   two\tthree"] {
        assert_eq!(split(s).join(" "), collapse(s));
        assert_eq!(join_arguments(&split(s)), collapse(s));
    }
}

#[test]
fn join_arguments_uses_single_spaces() {
    let args = vec!["--port".to_string(), "80".to_string(), "x y".to_string()];
    assert_eq!(join_arguments(&args), "--port 80 x y");
    assert_eq!(join_arguments(&Vec::new()), "");
}

#[test]
fn service_command_line_quotes_the_tool() {
    assert_eq!(
        service_command_line("C:\\Tools\\nssm-rs.exe", "web"),
        "\"C:\\Tools\\nssm-rs.exe\" run web"
    );
}
