use std::collections::HashMap;

use windows_tty::command_line::{cmdline, push_escaped_arg, Options, Shell};

fn escaped(arg: &str) -> String {
    let mut cmd = String::new();
    push_escaped_arg(&mut cmd, arg);
    cmd
}

// Takes what follows the program on a command line apart, as a child does.
fn read_args(text: &str) -> Vec<String> {
    let mut args: Vec<String> = Vec::new();
    let mut current = String::new();
    let mut started = false;
    let mut quoted = false;
    let mut slashes = 0usize;
    for c in text.chars() {
        if c == '\\' {
            started = true;
            slashes += 1;
        } else if c == '"' {
            started = true;
            current.push_str(&"\\".repeat(slashes / 2));
            if slashes % 2 == 0 {
                quoted = !quoted;
            } else {
                current.push('"');
            }
            slashes = 0;
        } else {
            current.push_str(&"\\".repeat(slashes));
            slashes = 0;
            if (c == ' ' || c == '\t') && !quoted {
                if started {
                    args.push(current);
                    current = String::new();
                    started = false;
                }
            } else {
                started = true;
                current.push(c);
            }
        }
    }
    if started {
        current.push_str(&"\\".repeat(slashes));
        args.push(current);
    }
    args
}

#[test]
fn test_escape() {
    let test_set = vec![
        // Basic cases - no escaping needed
        ("abc", "abc"),
        // Cases requiring quotes (space/tab)
        ("", "\"\""),
        (" ", "\" \""),
        ("ab c", "\"ab c\""),
        ("ab\tc", "\"ab\tc\""),
        // Cases with backslashes only (no spaces, no quotes) - no quotes added
        ("ab\\c", "ab\\c"),
        // Cases with quotes only (no spaces) - quotes escaped but no outer quotes
        ("ab\"c", "ab\\\"c"),
        ("\"", "\\\""),
        ("a\"b\"c", "a\\\"b\\\"c"),
        // Cases requiring both quotes and escaping (contains spaces)
        ("ab \"c", "\"ab \\\"c\""),
        ("a \"b\" c", "\"a \\\"b\\\" c\""),
        // Complex real-world cases
        ("C:\\Program Files\\", "\"C:\\Program Files\\\\\""),
        ("C:\\Program Files\\a.txt", "\"C:\\Program Files\\a.txt\""),
        (
            r#"sh -c "cd /home/user; ARG='abc' \""'${SHELL:-sh}" -i -c '"'echo hello'""#,
            r#""sh -c \"cd /home/user; ARG='abc' \\\"\"'${SHELL:-sh}\" -i -c '\"'echo hello'\"""#,
        ),
    ];

    for (input, expected) in test_set {
        let mut escaped_arg = String::new();
        push_escaped_arg(&mut escaped_arg, input);
        assert_eq!(escaped_arg, expected, "Failed for input: {}", input);
    }
}

#[test]
fn test_cmdline() {
    let mut options = Options {
        shell: Some(Shell {
            program: "echo".to_string(),
            args: vec!["hello world".to_string()],
        }),
        working_directory: None,
        drain_on_exit: true,
        env: Default::default(),
        escape_args: false,
    };
    assert_eq!(cmdline(&options), "echo hello world");

    options.escape_args = true;
    assert_eq!(cmdline(&options), "echo \"hello world\"");
}

#[test]
fn test_cmdline_spaced_program() {
    let mut options = Options {
        shell: Some(Shell {
            program: r"C:\p9 dir\child.exe".to_string(),
            args: vec!["--cd".to_string(), r"C:\Users\Jo Smith\Documents".to_string()],
        }),
        escape_args: true,
        ..Default::default()
    };
    assert_eq!(
        cmdline(&options),
        r#""C:\p9 dir\child.exe" --cd "C:\Users\Jo Smith\Documents""#
    );

    // unchanged without escaping, for configs that put arguments in the program
    options.escape_args = false;
    assert_eq!(cmdline(&options), r"C:\p9 dir\child.exe --cd C:\Users\Jo Smith\Documents");
}

#[test]
fn the_default_shell_runs_without_arguments() {
    let mut options = Options::default();
    assert_eq!(cmdline(&options), "powershell");
    options.escape_args = true;
    assert_eq!(cmdline(&options), "powershell");
}

#[test]
fn default_options_ask_for_nothing() {
    let options = Options::default();
    assert!(options.shell.is_none());
    assert!(options.working_directory.is_none());
    assert!(!options.drain_on_exit);
    assert_eq!(options.env, HashMap::new());
    assert!(!options.escape_args);
}

#[test]
fn a_program_with_a_tab_is_quoted() {
    let options = Options {
        shell: Some(Shell::new("a\tb".to_string(), Vec::new())),
        escape_args: true,
        ..Default::default()
    };
    assert_eq!(cmdline(&options), "\"a\tb\"");
}

#[test]
fn an_argument_is_appended_to_what_stands_there() {
    let mut cmd = "cmd.exe ".to_string();
    push_escaped_arg(&mut cmd, "a b");
    assert_eq!(cmd, "cmd.exe \"a b\"");
}

#[test]
fn backslashes_before_a_mark_are_doubled() {
    assert_eq!(escaped(r#"\""#), r#"\\\""#);
    assert_eq!(escaped(r#"a\\"b"#), r#"a\\\\\"b"#);
    assert_eq!(escaped(r#"a b\\"#), r#""a b\\\\""#);
    assert_eq!(escaped(r"a\\b\\"), r"a\\b\\");
}

#[test]
fn a_plain_argument_is_unchanged() {
    for arg in [r"\", r"\\\\", r"C:\Windows\", "--flag=1", "äöü", "a'b"] {
        assert_eq!(escaped(arg), arg);
    }
}

#[test]
fn an_escaped_line_is_read_back() {
    let args: Vec<String> = [
        "", " ", "\t", "\"", "\\", "\\\\\"", "a\"\" b\\", "C:\\Program Files\\", "x", "\\\" \\\\",
        "\"\"\"", "ende\\\\\\", " \\\\\\\" \\\\ ",
    ]
    .iter()
    .map(|arg| arg.to_string())
    .collect();
    let options = Options {
        shell: Some(Shell::new(r"C:\a b\c.exe".to_string(), args.clone())),
        escape_args: true,
        ..Default::default()
    };
    let line = cmdline(&options);
    let program = "\"C:\\a b\\c.exe\"";
    assert!(line.starts_with(program));
    assert_eq!(read_args(&line[program.len()..]), args);
}
