use commitgpt::{diff_arguments, read_diff, Args, Cli, Config, Error, Model};

fn strings(items: &[&str]) -> Vec<String> {
    items.iter().map(|item| item.to_string()).collect()
}

fn cli(file_ignore: bool, ignore_space: Option<bool>, path: &[&str]) -> Cli {
    Cli::new(
        Config {
            api_key: "k".to_string(),
            context_prefix: String::new(),
            suggestions: 5,
            ignore_space: file_ignore,
            max_tokens: 400,
            model: Model::GPT4,
        },
        Args {
            suggestions: None,
            ignore_space,
            max_tokens: None,
            model: None,
            path: strings(path),
            reason: String::new(),
        },
    )
}

#[test]
fn diff_arguments_plain() {
    assert_eq!(diff_arguments(false, &Vec::new()), strings(&["diff", "--staged"]));
}

#[test]
fn diff_arguments_ignoring_whitespace() {
    assert_eq!(
        diff_arguments(true, &Vec::new()),
        strings(&["diff", "--staged", "--ignore-space-change", "--ignore-blank-lines"])
    );
}

#[test]
fn diff_arguments_with_paths() {
    assert_eq!(
        diff_arguments(false, &strings(&["src/lib.rs", "a b.txt"])),
        strings(&["diff", "--staged", "--", "src/lib.rs", "a b.txt"])
    );
}

#[test]
fn diff_arguments_with_everything() {
    assert_eq!(
        diff_arguments(true, &strings(&["-x"])),
        strings(&[
            "diff",
            "--staged",
            "--ignore-space-change",
            "--ignore-blank-lines",
            "--",
            "-x"
        ])
    );
}

#[test]
fn cli_diff_arguments_follow_the_settings_in_force() {
    assert_eq!(
        cli(true, None, &[]).diff_arguments(),
        strings(&["diff", "--staged", "--ignore-space-change", "--ignore-blank-lines"])
    );
    assert_eq!(cli(true, Some(false), &[]).diff_arguments(), strings(&["diff", "--staged"]));
    assert_eq!(
        cli(false, Some(true), &["doc"]).diff_arguments(),
        strings(&[
            "diff",
            "--staged",
            "--ignore-space-change",
            "--ignore-blank-lines",
            "--",
            "doc"
        ])
    );
    assert_eq!(cli(false, None, &[]).diff_arguments(), strings(&["diff", "--staged"]));
}

#[test]
fn read_diff_of_a_failed_exit() {
    assert_eq!(read_diff(false, b"diff --git a/x b/x".to_vec()), Err(Error::GitDiff));
    assert_eq!(read_diff(false, vec![0xff]), Err(Error::GitDiff));
    assert_eq!(read_diff(false, Vec::new()), Err(Error::GitDiff));
}

#[test]
fn read_diff_decodes_the_output() {
    let text = "diff --git a/x b/x\n+caf\u{e9} \u{1f980}\n";
    assert_eq!(read_diff(true, text.as_bytes().to_vec()), Ok(text.to_string()));
}

#[test]
fn read_diff_keeps_an_empty_output() {
    assert_eq!(read_diff(true, Vec::new()), Ok(String::new()));
}

#[test]
fn read_diff_rejects_bytes_that_are_not_utf8() {
    for bytes in [
        vec![0xff],
        vec![b'a', 0xc3],
        vec![0xc0, 0x80],
        vec![0xed, 0xa0, 0x80],
        vec![0xf4, 0x90, 0x80, 0x80],
    ] {
        assert!(matches!(read_diff(true, bytes), Err(Error::FromUtf8(_))));
    }
}
