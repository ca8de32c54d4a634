use denim::action::Action;
use denim::failure::{Failure, PathFault};
use denim::project::{home_directory, Project, Resolution};
use denim::state::Probe;

fn project(path: &str) -> Project {
    Project::new(Resolution::File(path.to_string()), "/cache").unwrap()
}

#[test]
fn project_is_named_after_the_stem_and_housed_by_the_directory() {
    let project = project("/home/user/scripts/hello.rs");
    assert_eq!(project.name(), "hello");
    assert_eq!(project.script(), "/home/user/scripts/hello.rs");
    assert_eq!(project.home(), "/cache/project-4fc53cd1e0488003-hello");
}

#[test]
fn home_name_holds_sixteen_digits_of_the_digest() {
    let project = project("/tmp/x.rs");
    assert_eq!(project.home(), "/cache/project-e9671acd244849c5-x");
}

#[test]
fn script_below_the_root_is_keyed_by_the_root() {
    let project = project("/x.rs");
    assert_eq!(project.home(), "/cache/project-8a5edab282632443-x");
}

#[test]
fn same_directory_and_stem_give_the_same_home() {
    let one = project("/home/user/scripts/hello.rs");
    let other = project("/home/user/scripts/hello.txt");
    let bare = project("/home/user/scripts/hello");
    assert_eq!(one.home(), other.home());
    assert_eq!(one.home(), bare.home());
    assert_eq!(one.name(), other.name());
}

#[test]
fn other_directory_gives_another_home() {
    let one = project("/home/user/scripts/hello.rs");
    let other = project("/home/user/other/hello.rs");
    assert_eq!(other.home(), "/cache/project-05fbd965be387584-hello");
    assert_ne!(one.home(), other.home());
}

#[test]
fn other_stem_gives_another_home() {
    let one = project("/home/user/scripts/hello.rs");
    let other = project("/home/user/scripts/world.rs");
    assert_eq!(other.home(), "/cache/project-4fc53cd1e0488003-world");
    assert_ne!(one.home(), other.home());
}

#[test]
fn unresolved_paths_are_refused() {
    assert_eq!(
        Project::new(Resolution::Missing, "/cache"),
        Err(Failure::PathResolutionError(PathFault::NotFound))
    );
    assert_eq!(
        Project::new(Resolution::NotAFile, "/cache"),
        Err(Failure::PathResolutionError(PathFault::NotAFile))
    );
    assert_eq!(
        Project::new(Resolution::NotUtf8, "/cache"),
        Err(Failure::PathResolutionError(PathFault::EncodingError))
    );
}

#[test]
fn path_without_a_file_name_is_not_a_file() {
    for path in ["/", "", "/home/user/", "/home/user/.."] {
        assert_eq!(
            Project::new(Resolution::File(path.to_string()), "/cache"),
            Err(Failure::PathResolutionError(PathFault::NotAFile))
        );
    }
}

#[test]
fn home_directory_takes_the_key_from_the_digest() {
    assert_eq!(
        home_directory("/cache", "0123456789abcdef0123456789abcdef", "hello"),
        "/cache/project-0123456789abcdef-hello"
    );
    assert_eq!(home_directory("/cache/", "0123456789abcdef", "x"), "/cache/project-0123456789abcdef-x");
    assert_eq!(home_directory("/cache", "abc", "x"), "/cache/project-abc-x");
}

#[test]
fn layout_of_the_home() {
    let project = project("/home/user/scripts/hello.rs");
    let home = "/cache/project-4fc53cd1e0488003-hello";
    assert_eq!(project.binary_path(), format!("{}/hello", home));
    assert_eq!(project.sources_path(), format!("{}/src", home));
    assert_eq!(project.main_path(), format!("{}/src/main.rs", home));
    assert_eq!(project.manifest_path(), format!("{}/Cargo.toml", home));
}

#[test]
fn has_binary_only_where_the_file_was_found() {
    let project = project("/home/user/scripts/hello.rs");
    assert!(project.has_binary(&Probe::Found(12)));
    assert!(!project.has_binary(&Probe::Missing));
    assert!(!project.has_binary(&Probe::Failed));
}

#[test]
fn execute_launches_the_artifact_under_the_project_name() {
    let project = project("/home/user/scripts/hello.rs");
    assert_eq!(
        project.execute(vec!["--flag".to_string(), "value".to_string()]),
        Action::Launch {
            program: "/cache/project-4fc53cd1e0488003-hello/hello".to_string(),
            name: "hello".to_string(),
            arguments: vec!["--flag".to_string(), "value".to_string()],
        }
    );
}

#[test]
fn clean_removes_the_home_and_nothing_else() {
    let one = project("/home/user/scripts/hello.rs");
    let sibling = project("/home/user/scripts/world.rs");
    assert_eq!(one.clean(), Action::Remove("/cache/project-4fc53cd1e0488003-hello".to_string()));
    assert_ne!(one.clean(), sibling.clean());
}

#[test]
fn clean_all_removes_the_cache_root() {
    assert_eq!(Project::clean_all("/cache"), Action::Remove("/cache".to_string()));
}

#[test]
fn no_home_lies_within_another() {
    let one = project("/home/user/scripts/hello.rs");
    for path in ["/home/user/scripts/hello2.rs", "/home/user/other/hello.rs", "/hello.rs"] {
        let other = project(path);
        assert!(!other.home().starts_with(&format!("{}/", one.home())));
        assert!(!one.home().starts_with(&format!("{}/", other.home())));
        assert_ne!(one.home(), other.home());
    }
}
