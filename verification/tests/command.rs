use codex_acp::command::{
    bash_lc_script, escape_command, escape_or_join, strip_bash_lc_and_escape,
};

fn words(words: &[&str]) -> Vec<String> {
    words.iter().map(|word| word.to_string()).collect()
}

#[test]
fn a_bash_script_stands_alone() {
    let command = words(&["bash", "-lc", "ls | wc -l"]);
    assert_eq!(strip_bash_lc_and_escape(&command), "ls | wc -l");
    assert_eq!(bash_lc_script(&command), Some("ls | wc -l".to_string()));
}

#[test]
fn only_bash_lc_with_one_script_is_stripped() {
    assert_eq!(strip_bash_lc_and_escape(&words(&["bash", "-c", "ls"])), "bash -c ls");
    assert_eq!(strip_bash_lc_and_escape(&words(&["sh", "-lc", "ls"])), "sh -lc ls");
    assert_eq!(strip_bash_lc_and_escape(&words(&["bash", "-lc"])), "bash -lc");
    assert_eq!(
        strip_bash_lc_and_escape(&words(&["bash", "-lc", "ls", "x"])),
        "bash -lc ls x"
    );
    assert_eq!(bash_lc_script(&words(&["bash", "-c", "ls"])), None);
}

#[test]
fn words_are_quoted_for_a_shell() {
    assert_eq!(escape_command(&words(&["echo", "foo bar"])), "echo 'foo bar'");
    assert_eq!(escape_command(&words(&["echo", ""])), "echo ''");
    assert_eq!(strip_bash_lc_and_escape(&words(&["echo", "a;b"])), "echo 'a;b'");
}

#[test]
fn plain_words_are_not_quoted() {
    assert_eq!(escape_command(&words(&["git", "log", "--oneline"])), "git log --oneline");
    assert_eq!(escape_command(&words(&["a+b-c./:@]_9Z"])), "a+b-c./:@]_9Z");
    assert_eq!(escape_command(&[]), "");
}

#[test]
fn a_nul_leaves_the_bare_words() {
    assert_eq!(escape_command(&words(&["echo", "foo bar", "\0"])), "echo foo bar \0");
    assert_eq!(strip_bash_lc_and_escape(&words(&["\0", "x y"])), "\0 x y");
}

#[test]
fn the_quoted_form_counts_where_there_is_one() {
    let command = words(&["a b", "c"]);
    assert_eq!(escape_or_join(&command, Some("'a b' c".to_string())), "'a b' c");
    assert_eq!(escape_or_join(&command, None), "a b c");
}

#[test]
fn a_shell_reads_the_same_words() {
    let commands = [
        words(&[]),
        words(&[""]),
        words(&["echo", "a b", "", "it's", "#no", "$HOME", "^x^", "a\\b\"c"]),
        words(&["tab\t", "line\nbreak", "\\\n", "\r", "`x`", "!", "é\u{a0}'^\\"]),
    ];
    for command in commands {
        assert_eq!(shlex::split(&escape_command(&command)), Some(command));
    }
}

#[test]
fn different_commands_look_different() {
    assert_ne!(escape_command(&words(&["a", "b"])), escape_command(&words(&["a b"])));
    assert_ne!(escape_command(&words(&["'a'"])), escape_command(&words(&["a"])));
}
