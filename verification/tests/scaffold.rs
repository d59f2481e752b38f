use cargo_pros::commands::new::{
    new, rewrite_manifest, step, Scaffold, ScaffoldAction, ScaffoldEvent, Stage,
};
use cargo_pros::errors::CliError;
use cargo_pros::template::Template;

fn packed(entries: &[(&str, &[u8])]) -> Vec<u8> {
    let encoder = flate2::write::GzEncoder::new(Vec::new(), flate2::Compression::default());
    let mut builder = tar::Builder::new(encoder);
    for (path, data) in entries {
        let mut header = tar::Header::new_gnu();
        header.set_size(data.len() as u64);
        header.set_mode(0o644);
        builder.append_data(&mut header, path, *data).unwrap();
    }
    builder.into_inner().unwrap().finish().unwrap()
}

fn at(stage: Stage) -> Scaffold {
    Scaffold { stage, dir: "work/robot".to_string(), name: Some("robot".to_string()), download: true }
}

#[test]
fn rewrite_manifest_puts_the_name_in_the_placeholders_place() {
    let manifest = "[package]\nname = \"vexide-template\"\nversion = \"0.1.0\"\n";
    assert_eq!(rewrite_manifest(manifest, "robot"), "[package]\nname = \"robot\"\nversion = \"0.1.0\"\n");
    assert!(!rewrite_manifest(manifest, "robot").contains("vexide-template"));
}

#[test]
fn rewrite_manifest_replaces_every_placeholder() {
    let manifest = "name = \"vexide-template\"\ndescription = \"vexide-template project\"\n";
    assert_eq!(rewrite_manifest(manifest, "arm"), "name = \"arm\"\ndescription = \"arm project\"\n");
}

#[test]
fn rewrite_manifest_replaces_each_of_many_placeholders_in_one_pass() {
    let pieces = ["[package]\nname = \"", "\"\n# ", " ", "\n[lib]\nname = \"", "\"\n"];
    for name in ["robot", "", "x", "my robot"] {
        let rewritten = rewrite_manifest(&pieces.join("vexide-template"), name);
        assert_eq!(rewritten, pieces.join(name));
        assert_eq!(rewritten.matches("vexide-template").count(), 0);
    }
}

#[test]
fn rewrite_manifest_without_placeholder_changes_nothing() {
    let manifest = "[package]\nname = \"something-else\"\n";
    assert_eq!(rewrite_manifest(manifest, "robot"), manifest);
    assert_eq!(rewrite_manifest("", "robot"), "");
}

#[test]
fn rewrite_manifest_keeps_a_name_that_holds_the_placeholder() {
    assert_eq!(
        rewrite_manifest("name = \"vexide-template\"", "my-vexide-template"),
        "name = \"my-vexide-template\""
    );
}

#[test]
fn new_with_a_name_creates_the_project_below_the_path() {
    let begun = new("work".to_string(), Some("robot".to_string()), true);
    assert_eq!(
        begun,
        (
            Scaffold {
                stage: Stage::CheckingDirectory,
                dir: "work/robot".to_string(),
                name: Some("robot".to_string()),
                download: true,
            },
            ScaffoldAction::ListDirectory { create: Some("work".to_string()), dir: "work/robot".to_string() },
        )
    );
}

#[test]
fn new_without_a_name_takes_the_directorys_name() {
    let begun = new("/home/me/arm/".to_string(), None, false);
    assert_eq!(
        begun,
        (
            Scaffold {
                stage: Stage::CheckingDirectory,
                dir: "/home/me/arm/".to_string(),
                name: Some("arm".to_string()),
                download: false,
            },
            ScaffoldAction::ListDirectory { create: None, dir: "/home/me/arm/".to_string() },
        )
    );
}

#[test]
fn new_without_any_name_still_looks_into_the_directory() {
    for path in [".", "/", "a/..", ""] {
        let (state, action) = new(path.to_string(), None, true);
        assert_eq!(
            state,
            Scaffold { stage: Stage::CheckingDirectory, dir: path.to_string(), name: None, download: true }
        );
        assert_eq!(action, ScaffoldAction::ListDirectory { create: None, dir: path.to_string() });
    }
}

#[test]
fn full_directory_comes_before_the_missing_name() {
    let (state, _) = new(".".to_string(), None, true);
    let (state, action) = step(state, ScaffoldEvent::DirectoryListed(Some(3)));
    assert_eq!(state.stage, Stage::Finished);
    assert_eq!(action, ScaffoldAction::Finish(Err(CliError::ProjectDirFull(".".to_string()))));
}

#[test]
fn missing_name_ends_the_creation_in_an_empty_directory() {
    for listed in [Some(0usize), None] {
        let (state, _) = new("..".to_string(), None, false);
        let (state, action) = step(state, ScaffoldEvent::DirectoryListed(listed));
        assert_eq!(state.stage, Stage::Finished);
        assert_eq!(action, ScaffoldAction::Finish(Err(CliError::NoProjectName("..".to_string()))));
    }
    let nameless = Scaffold { stage: Stage::ReadingManifest, dir: "..".to_string(), name: None, download: false };
    let (_, action) = step(nameless, ScaffoldEvent::ManifestRead(Ok(String::new())));
    assert_eq!(action, ScaffoldAction::Finish(Err(CliError::NoProjectName("..".to_string()))));
}

#[test]
fn full_directory_ends_the_creation() {
    for count in [1usize, 2, 1000] {
        let (state, action) = step(at(Stage::CheckingDirectory), ScaffoldEvent::DirectoryListed(Some(count)));
        assert_eq!(state.stage, Stage::Finished);
        assert_eq!(action, ScaffoldAction::Finish(Err(CliError::ProjectDirFull("work/robot".to_string()))));
    }
}

#[test]
fn empty_or_missing_directory_lets_the_creation_go_on() {
    for listed in [Some(0usize), None] {
        let (state, action) = step(at(Stage::CheckingDirectory), ScaffoldEvent::DirectoryListed(listed));
        assert_eq!(state, at(Stage::Resolving));
        assert_eq!(action, ScaffoldAction::ResolveTemplate { download: true });
    }
}

#[test]
fn resolved_template_is_unpacked_below_the_directory() {
    let archive = packed(&[("top/Cargo.toml", b"name = \"vexide-template\""), ("top/src/main.rs", b"")]);
    let template = Template { data: archive.clone(), sha: None };
    let (state, action) = step(at(Stage::Resolving), ScaffoldEvent::TemplateResolved(template));
    assert_eq!(state, at(Stage::Unpacking));
    assert_eq!(
        action,
        ScaffoldAction::Unpack {
            archive,
            targets: vec![Some("work/robot/Cargo.toml".to_string()), Some("work/robot/src/main.rs".to_string())],
        }
    );
}

#[test]
fn unreadable_template_ends_the_creation() {
    let template = Template { data: vec![1, 2, 3], sha: None };
    let (state, action) = step(at(Stage::Resolving), ScaffoldEvent::TemplateResolved(template));
    assert_eq!(state.stage, Stage::Finished);
    assert!(matches!(action, ScaffoldAction::Finish(Err(CliError::IoError(_)))));
}

#[test]
fn manifest_is_read_rewritten_and_written_back() {
    let (state, action) = step(at(Stage::Unpacking), ScaffoldEvent::Unpacked(Ok(())));
    assert_eq!(state, at(Stage::ReadingManifest));
    assert_eq!(action, ScaffoldAction::ReadManifest { path: "work/robot/Cargo.toml".to_string() });
    let manifest = "name = \"vexide-template\"\n".to_string();
    let (state, action) = step(state, ScaffoldEvent::ManifestRead(Ok(manifest)));
    assert_eq!(state, at(Stage::WritingManifest));
    assert_eq!(
        action,
        ScaffoldAction::WriteManifest {
            path: "work/robot/Cargo.toml".to_string(),
            text: "name = \"robot\"\n".to_string(),
        }
    );
    let (state, action) = step(state, ScaffoldEvent::ManifestWritten(Ok(())));
    assert_eq!(state, at(Stage::Finished));
    assert_eq!(action, ScaffoldAction::Finish(Ok(())));
}

#[test]
fn file_system_failures_end_the_creation_with_their_reason() {
    let failed = |reason: &str| ScaffoldAction::Finish(Err(CliError::IoError(reason.to_string())));
    let (_, action) = step(at(Stage::Unpacking), ScaffoldEvent::Unpacked(Err("disk full".to_string())));
    assert_eq!(action, failed("disk full"));
    let (_, action) = step(at(Stage::ReadingManifest), ScaffoldEvent::ManifestRead(Err("no such file".to_string())));
    assert_eq!(action, failed("no such file"));
    let (_, action) = step(at(Stage::WritingManifest), ScaffoldEvent::ManifestWritten(Err("denied".to_string())));
    assert_eq!(action, failed("denied"));
}

#[test]
fn whole_creation_from_an_empty_directory_succeeds() {
    let archive = packed(&[("vexide-template-main/Cargo.toml", b"name = \"vexide-template\"")]);
    let (state, action) = new("work".to_string(), Some("arm".to_string()), false);
    assert_eq!(action, ScaffoldAction::ListDirectory { create: Some("work".to_string()), dir: "work/arm".to_string() });
    let (state, action) = step(state, ScaffoldEvent::DirectoryListed(None));
    assert_eq!(action, ScaffoldAction::ResolveTemplate { download: false });
    let (state, action) = step(state, ScaffoldEvent::TemplateResolved(Template { data: archive.clone(), sha: None }));
    assert_eq!(action, ScaffoldAction::Unpack { archive, targets: vec![Some("work/arm/Cargo.toml".to_string())] });
    let (state, _) = step(state, ScaffoldEvent::Unpacked(Ok(())));
    let (state, action) = step(state, ScaffoldEvent::ManifestRead(Ok("name = \"vexide-template\"".to_string())));
    assert_eq!(
        action,
        ScaffoldAction::WriteManifest { path: "work/arm/Cargo.toml".to_string(), text: "name = \"arm\"".to_string() }
    );
    let (_, action) = step(state, ScaffoldEvent::ManifestWritten(Ok(())));
    assert_eq!(action, ScaffoldAction::Finish(Ok(())));
}

#[test]
fn scaffold_events_that_answer_nothing_change_nothing() {
    let (state, action) = step(at(Stage::CheckingDirectory), ScaffoldEvent::Unpacked(Ok(())));
    assert_eq!((state, action), (at(Stage::CheckingDirectory), ScaffoldAction::Idle));
    let (state, action) = step(at(Stage::Finished), ScaffoldEvent::DirectoryListed(Some(3)));
    assert_eq!((state, action), (at(Stage::Finished), ScaffoldAction::Idle));
    let (state, action) = step(at(Stage::Unpacking), ScaffoldEvent::ManifestRead(Ok(String::new())));
    assert_eq!((state, action), (at(Stage::Unpacking), ScaffoldAction::Idle));
}
