use vshell::test_wrapper_parse_cmd as parse_cmd;

#[test]
fn test_cmd_parse() {
    let line = "foo -v";
    let (cmd, args) = parse_cmd(line);
    assert_eq!(cmd, "foo");
    assert_eq!(args, vec!["-v"]);
}

#[test]
fn test_cmd_parse_no_args() {
    let line = "foo";
    let (cmd, args) = parse_cmd(line);
    assert_eq!(cmd, "foo");
    assert_eq!(args, Vec::<&str>::new());
}

#[test]
fn test_cmd_parse_empty() {
    let line = "";
    let (cmd, args) = parse_cmd(line);
    assert_eq!(cmd, "");
    assert_eq!(args, Vec::<&str>::new());
}

#[test]
fn test_cmd_parse_whitespace() {
    let line = "  ";
    let (cmd, args) = parse_cmd(line);
    assert_eq!(cmd, "");
    assert_eq!(args, Vec::<&str>::new());
}

#[test]
fn test_cmd_parse_multiple_args() {
    let line = "foo -a -b";
    let (cmd, args) = parse_cmd(line);
    assert_eq!(cmd, "foo");
    assert_eq!(args, vec!["-a", "-b"]);
}

#[test]
fn test_cmd_parse_multiple_args_whitespace() {
    let line = "  foo  -a   -b   ";
    let (cmd, args) = parse_cmd(line);
    assert_eq!(cmd, "foo");
    assert_eq!(args, vec!["-a", "-b"]);
}

#[test]
fn test_cmd_parse_tabs_and_newlines() {
    let (cmd, args) = vshell::parse_cmd("\tfoo\t-a\n-b\r\n");
    assert_eq!(cmd, "foo");
    assert_eq!(args, vec!["-a", "-b"]);
}

#[test]
fn test_cmd_parse_single_char_tokens() {
    let (cmd, args) = vshell::parse_cmd("a b c");
    assert_eq!(cmd, "a");
    assert_eq!(args, vec!["b", "c"]);
}

#[test]
fn test_str_eq() {
    assert!(vshell::str_eq("abc", "abc"));
    assert!(!vshell::str_eq("abc", "abd"));
    assert!(!vshell::str_eq("abc", "ab"));
    assert!(vshell::str_eq("", ""));
}

#[test]
fn test_is_space_char() {
    assert!(vshell::is_space_char(' '));
    assert!(vshell::is_space_char('\t'));
    assert!(!vshell::is_space_char('x'));
    assert!(!vshell::is_space_char('~'));
}

#[test]
fn test_cmd_parse_unicode_whitespace_only() {
    let (cmd, args) = vshell::parse_cmd("\u{a0}\u{2003}\u{3000}");
    assert_eq!(cmd, "");
    assert_eq!(args, Vec::<&str>::new());
}

#[test]
fn test_cmd_parse_unicode_whitespace_separators() {
    let (cmd, args) = vshell::parse_cmd("a\u{a0}b\u{2028}c\u{85}");
    assert_eq!(cmd, "a");
    assert_eq!(args, vec!["b", "c"]);
}

#[test]
fn test_is_space_char_unicode() {
    assert!(vshell::is_space_char('\u{a0}'));
    assert!(vshell::is_space_char('\u{1680}'));
    assert!(vshell::is_space_char('\u{200a}'));
    assert!(vshell::is_space_char('\u{3000}'));
    assert!(!vshell::is_space_char('\u{200b}'));
    assert!(!vshell::is_space_char('\u{a1}'));
}
