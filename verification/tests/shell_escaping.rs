use openchat_core::shell::build_stdio_command;
use openchat_core::shell::compose_shell_line;
use openchat_core::shell::is_bare_command;
use openchat_core::shell::is_blank;
use openchat_core::shell::normalize_cwd;
use openchat_core::shell::sh_escape;
use openchat_core::shell::CommandPlan;

#[test]
fn bare_commands_have_no_path_separator() {
    assert!(is_bare_command("npx"));
    assert!(is_bare_command("node"));
    assert!(!is_bare_command("/usr/bin/env"));
    assert!(!is_bare_command("./server"));
    assert!(is_bare_command(""));
}

#[test]
fn escapes_plain_words_by_quoting() {
    assert_eq!(sh_escape("hello"), "'hello'");
    assert_eq!(sh_escape(""), "''");
    assert_eq!(sh_escape("two words"), "'two words'");
}

#[test]
fn escapes_embedded_single_quotes() {
    assert_eq!(sh_escape("it's"), "'it'\\''s'");
    assert_eq!(sh_escape("'"), "''\\'''");
    assert_eq!(sh_escape("a'b'c"), "'a'\\''b'\\''c'");
}

#[test]
fn leaves_backslashes_and_dollars_inert() {
    // Inside single quotes the shell expands nothing.
    assert_eq!(sh_escape("a\\nb"), "'a\\nb'");
    assert_eq!(sh_escape("$HOME"), "'$HOME'");
}

#[test]
fn composes_the_shell_line() {
    let args = vec!["-y".to_string(), "it's".to_string()];
    assert_eq!(compose_shell_line("npx", &args), "'npx' '-y' 'it'\\''s'");
    assert_eq!(compose_shell_line("npx", &Vec::new()), "'npx'");
}

#[test]
fn bare_command_goes_through_the_shell() {
    let args = vec!["-y".to_string()];
    match build_stdio_command("npx", &args) {
        CommandPlan::Shell { command_line } => assert_eq!(command_line, "'npx' '-y'"),
        other => panic!("expected a shell plan, got {:?}", plan_name(&other)),
    }
}

#[test]
fn pathed_command_runs_directly() {
    let args = vec!["--version".to_string()];
    match build_stdio_command("/usr/local/bin/server", &args) {
        CommandPlan::Direct { program, args: out } => {
            assert_eq!(program, "/usr/local/bin/server");
            assert_eq!(out, vec!["--version".to_string()]);
        }
        other => panic!("expected a direct plan, got {:?}", plan_name(&other)),
    }
}

fn plan_name(plan: &CommandPlan) -> &'static str {
    match plan {
        CommandPlan::Direct { .. } => "direct",
        CommandPlan::Shell { .. } => "shell",
    }
}

#[test]
fn blank_detection_covers_unicode_spaces() {
    assert!(is_blank(""));
    assert!(is_blank("   \t\n"));
    assert!(is_blank("\u{00A0}\u{2003}"));
    assert!(!is_blank(" x "));
}

#[test]
fn empty_working_directory_counts_as_unset() {
    assert_eq!(normalize_cwd(None), None);
    assert_eq!(normalize_cwd(Some("")), None);
    assert_eq!(normalize_cwd(Some("   ")), None);
    assert_eq!(normalize_cwd(Some("/srv/app")), Some("/srv/app".to_string()));
}
