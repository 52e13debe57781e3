use ptyproxy::shell::shell_command;

#[test]
fn unset_shell_variable_falls_back_to_bin_bash_as_login_shell() {
    let cmd = shell_command(None);
    assert_eq!(cmd.path, b"/bin/bash".to_vec());
    assert_eq!(cmd.arg0, b"-bash".to_vec());
}

#[test]
fn empty_shell_variable_falls_back_to_bin_bash() {
    let cmd = shell_command(Some(Vec::new()));
    assert_eq!(cmd.path, b"/bin/bash".to_vec());
    assert_eq!(cmd.arg0, b"-bash".to_vec());
}

#[test]
fn set_shell_variable_is_execed_under_its_login_name() {
    let cmd = shell_command(Some(b"/usr/bin/zsh".to_vec()));
    assert_eq!(cmd.path, b"/usr/bin/zsh".to_vec());
    assert_eq!(cmd.arg0, b"-zsh".to_vec());
}

#[test]
fn bare_program_name_keeps_its_whole_name() {
    let cmd = shell_command(Some(b"fish".to_vec()));
    assert_eq!(cmd.path, b"fish".to_vec());
    assert_eq!(cmd.arg0, b"-fish".to_vec());
}

#[test]
fn trailing_separator_leaves_only_the_login_marker() {
    let cmd = shell_command(Some(b"/bin/".to_vec()));
    assert_eq!(cmd.path, b"/bin/".to_vec());
    assert_eq!(cmd.arg0, b"-".to_vec());
}
