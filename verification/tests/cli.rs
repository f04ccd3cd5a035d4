use elba::cli::new::{init, init_with, new, NewCtx, Step};
use elba::index::config::IndexConfig;
use elba::package::resolution::{IndexRes, Url};
use elba::package::Name;

fn ctx(name: &str, bin: bool) -> NewCtx {
    NewCtx {
        path: "/home/me/project".to_string(),
        name: Name::from_str(name).unwrap(),
        author: Some(("me".to_string(), "me@example.com".to_string())),
        bin,
    }
}

#[test]
fn init_plans_a_library() {
    let steps = init(ctx("ring_ding/test", false));
    let manifest = "[package]\nname = \"ring_ding/test\"\nversion = \"0.1.0\"\nauthors = [me <me@example.com>]\n\n[dependencies]\n\n[targets.lib]\npath = \"src/\"\nmods = [\n    \"ring_ding.test\"\n]\n\n";
    assert_eq!(
        steps,
        vec![
            Step::Write {
                path: "/home/me/project/elba.toml".to_string(),
                contents: manifest.to_string(),
            },
            Step::CreateDir { path: "/home/me/project/src/RingDing".to_string() },
            Step::Write {
                path: "/home/me/project/src/RingDing/Test.idr".to_string(),
                contents: "module RingDing.Test\n\n".to_string(),
            },
        ]
    );
}

#[test]
fn init_plans_a_program() {
    let steps = init(ctx("ring_ding/test", true));
    let manifest = "[package]\nname = \"ring_ding/test\"\nversion = \"0.1.0\"\nauthors = [me <me@example.com>]\n\n[dependencies]\n\n[[targets.bin]]\nname = \"test\"\nmain = \"src/Main.idr\"\n\n";
    assert_eq!(
        steps,
        vec![
            Step::Write {
                path: "/home/me/project/elba.toml".to_string(),
                contents: manifest.to_string(),
            },
            Step::CreateDir { path: "/home/me/project/src".to_string() },
            Step::Write {
                path: "/home/me/project/src/Main.idr".to_string(),
                contents: "module Main\n\n".to_string(),
            },
        ]
    );
}

#[test]
fn init_without_an_author_leaves_the_entry_empty() {
    let mut c = ctx("a/b", true);
    c.author = None;
    let steps = init(c);
    match &steps[0] {
        Step::Write { contents, .. } => assert!(contents.contains("authors = []\n")),
        other => panic!("{:?}", other),
    }
}

#[test]
fn init_with_takes_the_module_names_as_given() {
    let steps = init_with(ctx("a/b", false), "Group", "Name");
    assert_eq!(steps[1], Step::CreateDir { path: "/home/me/project/src/Group".to_string() });
    assert_eq!(
        steps[2],
        Step::Write {
            path: "/home/me/project/src/Group/Name.idr".to_string(),
            contents: "module Group.Name\n\n".to_string(),
        }
    );
}

#[test]
fn new_makes_the_directory_first() {
    let steps = new(ctx("ring_ding/test", false), false).unwrap();
    assert_eq!(steps.len(), 4);
    assert_eq!(steps[0], Step::CreateDir { path: "/home/me/project".to_string() });
    assert_eq!(steps[1..], init(ctx("ring_ding/test", false))[..]);
}

#[test]
fn new_refuses_a_destination_that_exists() {
    let err = new(ctx("ring_ding/test", false), true).unwrap_err();
    assert_eq!(
        err,
        "destination `/home/me/project` already exists\n\ncreate a new `elba.toml` manifest file in the directory instead"
    );
}

#[test]
fn index_config_stands_in_a_file_of_its_own() {
    assert_eq!(IndexConfig::path("/cache/indices/00ff"), "/cache/indices/00ff/index.toml");
}

#[test]
fn index_config_default_is_open_and_alone() {
    let config = IndexConfig::default();
    assert!(!config.secure());
    assert!(config.dependencies().is_empty());
}

#[test]
fn index_config_hands_back_what_it_was_made_of() {
    let dep = IndexRes { url: Url::parse("https://index.example.com/").unwrap() };
    let config = IndexConfig::new(true, vec![dep.clone()]);
    assert!(config.secure());
    assert_eq!(config.dependencies(), &[dep][..]);
}
