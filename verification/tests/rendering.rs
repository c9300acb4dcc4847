use paperbot::catalog::{BuildDetail, Change, ProjectDetail, ProjectList, VersionDetail};
use paperbot::commands::{Action, CatalogResult, General, Reply};
use paperbot::render::ReplyAuthor;
use paperbot::text::truncate;

fn author() -> ReplyAuthor {
    ReplyAuthor::new(String::from("tester"), None)
}

fn embed_of(cmd: &paperbot::router::ParsedCommand, res: &CatalogResult) -> paperbot::render::RenderedReply {
    match General::reply_for(cmd, res, author(), String::from("2021-01-01T00:00:00+00:00")) {
        Reply::Embed(e) => e,
        Reply::Text(t) => panic!("expected an embed, got text: {}", t),
    }
}

#[test]
fn truncation_is_idempotent_and_cuts_whole_characters() {
    let short = "a".repeat(1000);
    assert_eq!(truncate(&short, 1024), short);
    let exact = "b".repeat(1024);
    assert_eq!(truncate(&exact, 1024), exact);
    let long = "c".repeat(2000);
    let cut = truncate(&long, 1024);
    assert_eq!(cut.chars().count(), 1024);
    assert_eq!(truncate(cut, 1024), cut);
    // Multi-byte characters are kept whole.
    let wide = "\u{00e9}".repeat(2000);
    let wide_cut = truncate(&wide, 1024);
    assert_eq!(wide_cut.chars().count(), 1024);
    assert!(wide_cut.chars().all(|c| c == '\u{00e9}'));
}

#[test]
fn project_list_keeps_source_order() {
    let list = ProjectList { projects: vec![
        String::from("paper"),
        String::from("waterfall"),
        String::from("velocity"),
    ] };
    let e = embed_of(&paperbot::router::ParsedCommand::ListProjects, &CatalogResult::Projects(list));
    assert_eq!(e.title, "PaperAPI Projects");
    assert_eq!(e.description.as_deref(), Some("paper, waterfall, velocity"));
    assert!(e.fields.is_empty());
}

#[test]
fn project_fields_are_reversed_and_double_reversal_restores_order() {
    let detail = ProjectDetail {
        project_id: String::from("paper"),
        project_name: String::from("Paper"),
        version_groups: vec![String::from("1.16"), String::from("1.17"), String::from("1.18")],
        versions: vec![String::from("1.18.1"), String::from("1.18.2")],
    };
    let cmd = paperbot::router::ParsedCommand::ProjectInfo { name: String::from("paper") };
    let e = embed_of(&cmd, &CatalogResult::Project(detail));
    assert_eq!(e.title, "PaperAPI Project Paper");
    assert_eq!(e.fields.len(), 3);
    assert_eq!(e.fields[0].label, "Project ID");
    assert_eq!(e.fields[0].value, "paper");
    assert!(e.fields[0].inline);
    assert_eq!(e.fields[1].label, "Project Groups");
    assert_eq!(e.fields[1].value, "1.18, 1.17, 1.16");
    assert!(!e.fields[1].inline);
    assert_eq!(e.fields[2].value, "1.18.2, 1.18.1");
    // Reversing the rendered list a second time restores the fetched order.
    let rendered: Vec<&str> = e.fields[1].value.split(", ").collect();
    let twice: Vec<&str> = rendered.iter().rev().cloned().collect();
    assert_eq!(twice, vec!["1.16", "1.17", "1.18"]);
}

#[test]
fn version_builds_are_rendered_as_reversed_numbers() {
    let v = VersionDetail {
        project_id: String::from("paper"),
        project_name: String::from("Paper"),
        version: String::from("1.18"),
        builds: vec![1, 2, 3, 40],
    };
    let cmd = paperbot::router::ParsedCommand::VersionInfo {
        project: String::from("paper"),
        version: String::from("1.18"),
    };
    let e = embed_of(&cmd, &CatalogResult::Version(v));
    assert_eq!(e.title, "PaperAPI Project Paper Version 1.18");
    assert_eq!(e.fields[1].label, "Project Version Builds");
    assert_eq!(e.fields[1].value, "40, 3, 2, 1");
}

fn build_with_changes(n: usize) -> BuildDetail {
    let mut changes = Vec::new();
    for i in 0..n {
        changes.push(Change {
            commit: format!("c{:05}extra", i),
            summary: format!("change number {}", i),
        });
    }
    BuildDetail {
        project_id: String::from("paper"),
        project_name: String::from("Paper"),
        version: String::from("1.18"),
        build: 42,
        time: String::from("2021-01-01T00:00:00Z"),
        artifact_name: String::from("paper-1.18.jar"),
        changes,
    }
}

#[test]
fn change_list_is_capped_to_the_first_23() {
    let cmd = paperbot::router::ParsedCommand::BuildInfo {
        project: String::from("paper"),
        version: String::from("1.18"),
        build: 42,
    };
    let e = embed_of(&cmd, &CatalogResult::Build(build_with_changes(50)));
    // Two fixed fields, then exactly 23 change fields.
    assert_eq!(e.fields.len(), 2 + 23);
    // The first 23 changes in their original order, hashes cut to 10 chars.
    assert_eq!(e.fields[2].label, "Commit c00000extr");
    assert_eq!(e.fields[2].value, "change number 0");
    assert_eq!(e.fields[24].label, "Commit c00022extr");
    assert_eq!(e.fields[24].value, "change number 22");
}

#[test]
fn end_to_end_build_command() {
    let cmd = match General::plan_message(false, ">project build paper 1.18 42") {
        Action::Lookup(c) => c,
        _ => panic!("expected a lookup"),
    };
    let e = embed_of(&cmd, &CatalogResult::Build(build_with_changes(1)));
    assert_eq!(e.title, "PaperAPI Project Paper Version 1.18 Build 42");
    assert_eq!(e.fields[0].label, "Project ID");
    assert_eq!(e.fields[0].value, "paper");
    assert_eq!(e.fields[1].label, "Time");
    assert_eq!(e.fields[1].value, "2021-01-01T00:00:00Z");
    assert_eq!(e.fields.len(), 3);
    assert!(e.fields[2].label.starts_with("Commit "));
    let link = e.link.expect("a build reply carries a download link");
    assert!(link.ends_with("paper/1.18/builds/42/downloads/paper-1.18.jar"));
    assert_eq!(e.footer.as_deref(), Some("Click to download!"));
}

#[test]
fn not_found_replies_use_the_fixed_templates() {
    let author = || ReplyAuthor::new(String::from("tester"), None);
    let ts = || String::from("2021-01-01T00:00:00+00:00");
    let text = |cmd: &paperbot::router::ParsedCommand| -> String {
        match General::reply_for(cmd, &CatalogResult::NotFound, author(), ts()) {
            Reply::Text(t) => t,
            _ => panic!("expected text"),
        }
    };
    let l = paperbot::router::ParsedCommand::ListProjects;
    assert_eq!(text(&l), "Could not find projects");
    let p = paperbot::router::ParsedCommand::ProjectInfo { name: String::from("foo") };
    assert_eq!(text(&p), "Could not find project foo");
    let g = paperbot::router::ParsedCommand::GroupInfo {
        project: String::from("foo"),
        group: String::from("bar"),
    };
    assert_eq!(text(&g), "Could not find project groups (Project: foo, Version Group: bar)");
    let b = paperbot::router::ParsedCommand::GroupBuilds {
        project: String::from("foo"),
        group: String::from("bar"),
    };
    assert_eq!(text(&b), "Could not find builds (Project: foo, Version Group: bar)");
    let v = paperbot::router::ParsedCommand::VersionInfo {
        project: String::from("foo"),
        version: String::from("1.2"),
    };
    assert_eq!(text(&v), "Could not find project version (Project: foo, Version: 1.2)");
    let bi = paperbot::router::ParsedCommand::BuildInfo {
        project: String::from("foo"),
        version: String::from("1.2"),
        build: -7,
    };
    assert_eq!(
        text(&bi),
        "Could not find project version build (Project: foo, Version: 1.2, Build: -7)"
    );
}

#[test]
fn empty_collections_render_as_empty_values() {
    let detail = ProjectDetail {
        project_id: String::from("paper"),
        project_name: String::from("Paper"),
        version_groups: vec![],
        versions: vec![],
    };
    let cmd = paperbot::router::ParsedCommand::ProjectInfo { name: String::from("paper") };
    let e = embed_of(&cmd, &CatalogResult::Project(detail));
    assert_eq!(e.fields[1].value, "");
    assert_eq!(e.fields[2].value, "");
}

#[test]
fn timestamp_is_produced_at_render_time() {
    let ts = paperbot::clock::timestamp();
    assert!(!ts.is_empty());
    // A clock-stamped reply differs from the fixed-stamp one only in the
    // timestamp.
    let cmd = paperbot::router::ParsedCommand::ListProjects;
    let list = ProjectList { projects: vec![String::from("paper")] };
    let reply = General::reply_for_now(&cmd, &CatalogResult::Projects(list), author());
    match reply {
        Reply::Embed(e) => {
            assert_eq!(e.title, "PaperAPI Projects");
            assert_eq!(e.description.as_deref(), Some("paper"));
            assert!(!e.timestamp.is_empty());
        }
        Reply::Text(t) => panic!("expected an embed, got text: {}", t),
    }
}
