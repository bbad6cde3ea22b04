use cargo_set_rust_version::command::SetRustVersionCmd;
use cargo_set_rust_version::failure::Failure;
use cargo_set_rust_version::walk::{Action, Output, Phase, Reply, Walk};
use std::collections::HashMap;

/// What a run left behind.
struct Ran {
    lines: Vec<String>,
    files: HashMap<String, String>,
    fetched: Vec<String>,
    read: Vec<String>,
    written: Vec<String>,
    result: Result<(), Failure>,
}

impl Ran {
    fn stdout(&self) -> String {
        let mut text = String::new();
        for line in &self.lines {
            text.push_str(line);
            text.push('\n');
        }
        text
    }

    fn file(&self, path: &str) -> &str {
        self.files.get(path).map(String::as_str).unwrap_or("<no such file>")
    }
}

/// The release description of a channel, as far as a run reads it.
fn release(version: &str) -> String {
    format!("[pkg.rustc]\nversion = \"{}\"\n", version)
}

/// Runs the command on files that are held in memory. A file that is not among
/// `files` cannot be read; a file whose path is in `read_only` cannot be
/// written.
fn run_on(
    files: &[(&str, &str)],
    read_only: &[&str],
    manifest: &str,
    channel: &str,
    release: Reply,
) -> Ran {
    let mut ran = Ran {
        lines: Vec::new(),
        files: files.iter().map(|(path, text)| (path.to_string(), text.to_string())).collect(),
        fetched: Vec::new(),
        read: Vec::new(),
        written: Vec::new(),
        result: Ok(()),
    };
    let mut release = Some(release);
    let cmd = SetRustVersionCmd { manifest: manifest.to_string(), channel: channel.to_string() };
    let (mut walk, mut output): (Walk, Output) = cmd.run();
    loop {
        ran.lines.extend(output.lines);
        let reply = match output.action {
            Action::Fetch { url } => {
                ran.fetched.push(url);
                release.take().unwrap_or(Reply::Failed)
            }
            Action::Read { path } => {
                ran.read.push(path.clone());
                match ran.files.get(&path) {
                    Some(text) => Reply::Text(text.clone()),
                    None => Reply::Failed,
                }
            }
            Action::Write { path, text } => {
                if read_only.contains(&path.as_str()) {
                    Reply::Failed
                } else {
                    ran.written.push(path.clone());
                    ran.files.insert(path, text);
                    Reply::Done
                }
            }
            Action::Finish { result } => {
                ran.result = result;
                match result {
                    Ok(()) => assert_eq!(walk.phase(), Phase::Succeeded),
                    Err(failure) => assert_eq!(walk.phase(), Phase::Failed(failure)),
                }
                return ran;
            }
        };
        output = walk.step(reply);
    }
}

fn run_1_62(files: &[(&str, &str)], manifest: &str) -> Ran {
    run_on(files, &[], manifest, "1.62", Reply::Text(release("1.62.1 (e092d0b6b 2022-07-16)")))
}

#[test]
fn empty() {
    let ran = run_1_62(&[("Cargo.toml", "")], "Cargo.toml");
    assert_eq!(ran.result, Ok(()));
    assert_eq!(
        ran.stdout(),
        format!(
            "channel: 1.62
latest rust-version: 1.62
{0}: reading
{0}: updating rust-version: None => 1.62
",
            "Cargo.toml"
        )
    );
    assert_eq!(ran.file("Cargo.toml"), "package = { rust-version = \"1.62\" }\n");
}

#[test]
fn nothing_to_do() {
    let manifest = r#"
[package]
rust-version = "1.62"
"#;
    let ran = run_1_62(&[("Cargo.toml", manifest)], "Cargo.toml");
    assert_eq!(ran.result, Ok(()));
    assert_eq!(
        ran.stdout(),
        format!(
            "channel: 1.62
latest rust-version: 1.62
{0}: reading
{0}: up-to-date rust-version: 1.62
",
            "Cargo.toml"
        )
    );
    assert!(ran.written.is_empty());
    assert_eq!(
        ran.file("Cargo.toml"),
        r#"
[package]
rust-version = "1.62"
"#
    );
}

#[test]
fn preserve_comments() {
    let manifest = r#"
[package]
# Keep rust-version up to date.
rust-version = "1.61"
"#;
    let ran = run_1_62(&[("Cargo.toml", manifest)], "Cargo.toml");
    assert_eq!(ran.result, Ok(()));
    assert_eq!(
        ran.stdout(),
        format!(
            "channel: 1.62
latest rust-version: 1.62
{0}: reading
{0}: updating rust-version: 1.61 => 1.62
",
            "Cargo.toml"
        )
    );
    assert_eq!(
        ran.file("Cargo.toml"),
        r#"
[package]
# Keep rust-version up to date.
rust-version = "1.62"
"#
    );
}

#[test]
fn update() {
    let manifest = r#"
[package]
rust-version = "1.61"
"#;
    let ran = run_1_62(&[("Cargo.toml", manifest)], "Cargo.toml");
    assert_eq!(ran.result, Ok(()));
    assert_eq!(
        ran.stdout(),
        format!(
            "channel: 1.62
latest rust-version: 1.62
{0}: reading
{0}: updating rust-version: 1.61 => 1.62
",
            "Cargo.toml"
        )
    );
    assert_eq!(
        ran.file("Cargo.toml"),
        r#"
[package]
rust-version = "1.62"
"#
    );
}

#[test]
fn workspace() {
    let manifest = r#"
[workspace]
members = ["a", "b"]
"#;
    let manifest_a = r#"
[package]
rust-version = "1.60"
"#;
    let manifest_b = r#"
[package]
rust-version = "1.62"
"#;
    let ran = run_1_62(
        &[
            ("/tmp/ws/Cargo.toml", manifest),
            ("/tmp/ws/a/Cargo.toml", manifest_a),
            ("/tmp/ws/b/Cargo.toml", manifest_b),
        ],
        "/tmp/ws/Cargo.toml",
    );
    assert_eq!(ran.result, Ok(()));
    assert_eq!(
        ran.stdout(),
        format!(
            "channel: 1.62
latest rust-version: 1.62
{0}: reading
{0}: found workspace
{1}: reading
{1}: updating rust-version: 1.60 => 1.62
{2}: reading
{2}: up-to-date rust-version: 1.62
",
            "/tmp/ws/Cargo.toml", "/tmp/ws/a/Cargo.toml", "/tmp/ws/b/Cargo.toml",
        )
    );
    assert_eq!(
        ran.file("/tmp/ws/Cargo.toml"),
        r#"
[workspace]
members = ["a", "b"]
"#
    );
    assert_eq!(
        ran.file("/tmp/ws/a/Cargo.toml"),
        r#"
[package]
rust-version = "1.62"
"#
    );
    assert_eq!(
        ran.file("/tmp/ws/b/Cargo.toml"),
        r#"
[package]
rust-version = "1.62"
"#
    );
    assert_eq!(ran.written, vec!["/tmp/ws/a/Cargo.toml"]);
}

#[test]
fn fetches_the_channel_once() {
    let ran = run_1_62(&[("Cargo.toml", "[package]\nrust-version = \"1.62\"\n")], "Cargo.toml");
    assert_eq!(ran.fetched, vec!["https://static.rust-lang.org/dist/channel-rust-1.62.toml"]);
}

#[test]
fn missing_manifest_is_a_read_failure() {
    let ran = run_1_62(&[], "nowhere/Cargo.toml");
    assert_eq!(ran.result, Err(Failure::ReadingManifest));
    assert_eq!(
        ran.stdout(),
        "channel: 1.62\nlatest rust-version: 1.62\nnowhere/Cargo.toml: reading\n"
    );
    assert_eq!(ran.read, vec!["nowhere/Cargo.toml"]);
    assert!(ran.written.is_empty());
    assert!(ran.files.is_empty());
}

#[test]
fn second_run_changes_nothing() {
    let manifest = "# pinned\n[package]\nname = \"x\"\nrust-version = \"1.58\" # old\n";
    let first = run_1_62(&[("Cargo.toml", manifest)], "Cargo.toml");
    assert_eq!(first.written, vec!["Cargo.toml"]);
    let after_first = first.file("Cargo.toml").to_string();
    assert_eq!(after_first, "# pinned\n[package]\nname = \"x\"\nrust-version = \"1.62\" # old\n");
    let second = run_1_62(&[("Cargo.toml", &after_first)], "Cargo.toml");
    assert_eq!(second.result, Ok(()));
    assert!(second.written.is_empty());
    assert_eq!(second.file("Cargo.toml"), after_first);
    assert_eq!(
        second.stdout(),
        "channel: 1.62\nlatest rust-version: 1.62\nCargo.toml: reading\nCargo.toml: up-to-date rust-version: 1.62\n"
    );
}

#[test]
fn downgrade_is_an_update_like_any_other() {
    let ran = run_1_62(&[("Cargo.toml", "[package]\nrust-version = \"1.70\"\n")], "Cargo.toml");
    assert_eq!(ran.file("Cargo.toml"), "[package]\nrust-version = \"1.62\"\n");
    assert_eq!(ran.lines[3], "Cargo.toml: updating rust-version: 1.70 => 1.62");
}

#[test]
fn workspace_is_not_treated_as_a_package() {
    let root = "[workspace]\nmembers = []\n\n[package]\nrust-version = \"1.0\"\n";
    let ran = run_1_62(&[("Cargo.toml", root)], "Cargo.toml");
    assert_eq!(ran.result, Ok(()));
    assert!(ran.written.is_empty());
    assert_eq!(ran.lines[2..], ["Cargo.toml: reading", "Cargo.toml: found workspace"]);
}

#[test]
fn nested_workspaces_are_walked_depth_first() {
    let ran = run_1_62(
        &[
            ("Cargo.toml", "[workspace]\nmembers = [\"a\", \"b\"]\n"),
            ("a/Cargo.toml", "[workspace]\nmembers = [\"x\", \"y\"]\n"),
            ("a/x/Cargo.toml", "[package]\nrust-version = \"1.1\"\n"),
            ("a/y/Cargo.toml", "[package]\nrust-version = \"1.62\"\n"),
            ("b/Cargo.toml", "[package]\n"),
        ],
        "Cargo.toml",
    );
    assert_eq!(ran.result, Ok(()));
    assert_eq!(
        ran.read,
        vec!["Cargo.toml", "a/Cargo.toml", "a/x/Cargo.toml", "a/y/Cargo.toml", "b/Cargo.toml"]
    );
    assert_eq!(ran.written, vec!["a/x/Cargo.toml", "b/Cargo.toml"]);
    assert_eq!(ran.file("b/Cargo.toml"), "[package]\nrust-version = \"1.62\"\n");
    assert_eq!(ran.lines.last().unwrap(), "b/Cargo.toml: updating rust-version: None => 1.62");
}

#[test]
fn failure_keeps_what_was_written_before() {
    let ran = run_1_62(
        &[
            ("Cargo.toml", "[workspace]\nmembers = [\"a\", \"gone\", \"c\"]\n"),
            ("a/Cargo.toml", "[package]\nrust-version = \"1.60\"\n"),
            ("c/Cargo.toml", "[package]\nrust-version = \"1.60\"\n"),
        ],
        "Cargo.toml",
    );
    assert_eq!(ran.result, Err(Failure::ReadingManifest));
    assert_eq!(ran.file("a/Cargo.toml"), "[package]\nrust-version = \"1.62\"\n");
    assert_eq!(ran.file("c/Cargo.toml"), "[package]\nrust-version = \"1.60\"\n");
    assert_eq!(ran.read, vec!["Cargo.toml", "a/Cargo.toml", "gone/Cargo.toml"]);
}

#[test]
fn member_that_is_no_string_fails_when_its_turn_comes() {
    let ran = run_1_62(
        &[
            ("Cargo.toml", "[workspace]\nmembers = [\"a\", 1, \"c\"]\n"),
            ("a/Cargo.toml", "[package]\nrust-version = \"1.60\"\n"),
            ("c/Cargo.toml", "[package]\nrust-version = \"1.60\"\n"),
        ],
        "Cargo.toml",
    );
    assert_eq!(ran.result, Err(Failure::WorkspaceMemberIsNotString));
    assert_eq!(ran.written, vec!["a/Cargo.toml"]);
    assert_eq!(ran.read, vec!["Cargo.toml", "a/Cargo.toml"]);
}

#[test]
fn workspace_without_members() {
    let ran = run_1_62(&[("Cargo.toml", "[workspace]\n")], "Cargo.toml");
    assert_eq!(ran.result, Err(Failure::WorkspaceMembersIsMissing));
    assert_eq!(ran.lines[2..], ["Cargo.toml: reading", "Cargo.toml: found workspace"]);
}

#[test]
fn workspace_members_that_are_no_array() {
    let ran = run_1_62(&[("Cargo.toml", "[workspace]\nmembers = \"a\"\n")], "Cargo.toml");
    assert_eq!(ran.result, Err(Failure::WorkspaceMembersIsNotArray));
    let ran = run_1_62(&[("Cargo.toml", "[[workspace.members]]\nname = \"a\"\n")], "Cargo.toml");
    assert_eq!(ran.result, Err(Failure::WorkspaceMembersIsNotArray));
}

#[test]
fn manifest_that_is_no_toml() {
    let ran = run_1_62(&[("Cargo.toml", "[package\n")], "Cargo.toml");
    assert_eq!(ran.result, Err(Failure::ParsingManifest));
    assert_eq!(ran.lines[2..], ["Cargo.toml: reading"]);
    assert!(ran.written.is_empty());
}

#[test]
fn package_that_is_no_table() {
    let ran = run_1_62(&[("Cargo.toml", "package = 1\n")], "Cargo.toml");
    assert_eq!(ran.result, Err(Failure::PackageIsNotTable));
    assert_eq!(ran.lines[3], "Cargo.toml: updating rust-version: None => 1.62");
    assert_eq!(ran.file("Cargo.toml"), "package = 1\n");
    let ran = run_1_62(&[("Cargo.toml", "[[package]]\nname = \"a\"\n")], "Cargo.toml");
    assert_eq!(ran.result, Err(Failure::PackageIsNotTable));
}

#[test]
fn inline_package_table_takes_the_field() {
    let ran = run_1_62(&[("Cargo.toml", "package = { name = \"a\" }\n")], "Cargo.toml");
    assert_eq!(ran.result, Ok(()));
    assert_eq!(ran.file("Cargo.toml"), "package = { name = \"a\" , rust-version = \"1.62\" }\n");
}

#[test]
fn field_that_is_no_string_counts_as_unset() {
    let ran = run_1_62(&[("Cargo.toml", "[package]\nrust-version = 1.61\n")], "Cargo.toml");
    assert_eq!(ran.lines[3], "Cargo.toml: updating rust-version: None => 1.62");
    assert_eq!(ran.file("Cargo.toml"), "[package]\nrust-version = \"1.62\"\n");
}

#[test]
fn write_failure_ends_the_run() {
    let ran = run_on(
        &[
            ("Cargo.toml", "[workspace]\nmembers = [\"a\", \"b\"]\n"),
            ("a/Cargo.toml", "[package]\nrust-version = \"1.60\"\n"),
            ("b/Cargo.toml", "[package]\nrust-version = \"1.60\"\n"),
        ],
        &["a/Cargo.toml"],
        "Cargo.toml",
        "stable",
        Reply::Text(release("1.62.0")),
    );
    assert_eq!(ran.result, Err(Failure::WritingManifest));
    assert_eq!(ran.read, vec!["Cargo.toml", "a/Cargo.toml"]);
    assert_eq!(ran.file("b/Cargo.toml"), "[package]\nrust-version = \"1.60\"\n");
}

#[test]
fn fetch_failures() {
    let files = [("Cargo.toml", "[package]\n")];
    let ran = run_on(&files, &[], "Cargo.toml", "stable", Reply::Failed);
    assert_eq!(ran.result, Err(Failure::Http));
    assert_eq!(ran.stdout(), "channel: stable\n");
    assert!(ran.read.is_empty());
    let ran = run_on(&files, &[], "Cargo.toml", "stable", Reply::NotText);
    assert_eq!(ran.result, Err(Failure::ParsingReleaseInfoNotString));
    let ran = run_on(&files, &[], "Cargo.toml", "stable", Reply::Text(String::from("pkg = [")));
    assert_eq!(ran.result, Err(Failure::ParsingReleaseInfoNotValidToml));
    let ran = run_on(&files, &[], "Cargo.toml", "stable", Reply::Text(String::from("[pkg]")));
    assert_eq!(ran.result, Err(Failure::ReleaseInfoRustcSectionIsMissing));
    assert_eq!(ran.stdout(), "channel: stable\n");
}

#[test]
fn a_reply_out_of_turn_fails_the_action() {
    let cmd = SetRustVersionCmd { manifest: String::from("Cargo.toml"), channel: String::from("stable") };
    let (mut walk, _) = cmd.run();
    assert_eq!(walk.phase(), Phase::Fetching);
    let output = walk.step(Reply::Text(release("1.62.0")));
    assert_eq!(output.action, Action::Read { path: String::from("Cargo.toml") });
    assert_eq!(walk.phase(), Phase::Reading);
    let output = walk.step(Reply::Done);
    assert_eq!(output.action, Action::Finish { result: Err(Failure::ReadingManifest) });
    let again = walk.step(Reply::Text(String::from("[package]\n")));
    assert_eq!(again.action, Action::Finish { result: Err(Failure::ReadingManifest) });
    assert!(again.lines.is_empty());
}

#[test]
fn a_run_that_has_ended_stays_ended() {
    let cmd = SetRustVersionCmd::default();
    assert_eq!(cmd.manifest, "Cargo.toml");
    assert_eq!(cmd.channel, "stable");
    let (mut walk, first) = cmd.run();
    assert_eq!(first.lines, vec!["channel: stable"]);
    walk.step(Reply::Text(release("1.70.0 (90c541806 2023-05-31)")));
    let output = walk.step(Reply::Text(String::from("[package]\nrust-version = \"1.70\"\n")));
    assert_eq!(output.action, Action::Finish { result: Ok(()) });
    assert_eq!(output.lines, vec!["Cargo.toml: up-to-date rust-version: 1.70"]);
    let again = walk.step(Reply::Done);
    assert_eq!(again.action, Action::Finish { result: Ok(()) });
    assert!(again.lines.is_empty());
}
