use dotman::config::Execution;
use dotman::error::DotmanError;
use dotman::utils::{
    expand_tilde, get_current_os, get_hostname, join_paths, make_absolute, resolve,
    starts_with_tilde, Absolute, ExpandTilde,
};
use dotman::OperatingSystem;

fn cwd(dir: &str) -> Result<String, String> {
    Ok(dir.to_string())
}

#[test]
fn tilde_slash_expands_with_one_separator() {
    assert_eq!(expand_tilde("~/foo", Some("/home/u")), Ok("/home/u/foo".to_string()));
    assert_eq!(expand_tilde("~/a/b.txt", Some("/home/u")), Ok("/home/u/a/b.txt".to_string()));
    assert_eq!(expand_tilde("~/foo", Some("/home/u/")), Ok("/home/u/foo".to_string()));
    assert_eq!(expand_tilde("~/foo", Some("/")), Ok("/foo".to_string()));
}

#[test]
fn slashes_after_the_tilde_are_consumed() {
    assert_eq!(expand_tilde("~//foo", Some("/home/u")), Ok("/home/u/foo".to_string()));
    assert_eq!(expand_tilde("~///a//b", Some("/home/u")), Ok("/home/u/a//b".to_string()));
    assert_eq!(expand_tilde("~foo", Some("/home/u")), Ok("/home/u/foo".to_string()));
}

#[test]
fn bare_tilde_is_the_home_directory() {
    assert_eq!(expand_tilde("~", Some("/home/u")), Ok("/home/u/".to_string()));
    assert_eq!(expand_tilde("~/", Some("/home/u")), Ok("/home/u/".to_string()));
    assert_eq!(expand_tilde("~", Some("/home/u/")), Ok("/home/u/".to_string()));
}

#[test]
fn paths_without_tilde_are_unchanged() {
    for path in ["", "/etc/hosts", "relative/path", "a~b", "/home/~user", " ~/x", "./~"] {
        assert_eq!(expand_tilde(path, Some("/home/u")), Ok(path.to_string()));
        assert_eq!(expand_tilde(path, None), Ok(path.to_string()));
    }
    assert_eq!(expand_tilde("été/~", None), Ok("été/~".to_string()));
}

#[test]
fn tilde_without_home_is_an_error() {
    assert_eq!(expand_tilde("~/foo", None), Err(DotmanError::NoHomeDirectory));
    assert_eq!(expand_tilde("~", None), Err(DotmanError::NoHomeDirectory));
}

#[test]
fn starts_with_tilde_looks_at_the_first_character() {
    assert!(starts_with_tilde("~"));
    assert!(starts_with_tilde("~/x"));
    assert!(!starts_with_tilde(""));
    assert!(!starts_with_tilde("/~"));
}

#[test]
fn join_follows_the_base_unless_absolute() {
    assert_eq!(join_paths("/a", "b"), "/a/b");
    assert_eq!(join_paths("/a/", "b"), "/a/b");
    assert_eq!(join_paths("/a", "/b"), "/b");
    assert_eq!(join_paths("", "b"), "b");
    assert_eq!(join_paths("/a", ""), "/a/");
    assert_eq!(join_paths("/", "b/c"), "/b/c");
}

#[test]
fn absolute_paths_stay_and_relative_ones_follow_the_cwd() {
    assert_eq!(make_absolute("/tmp/T/s.txt", &cwd("/work")), Ok("/tmp/T/s.txt".to_string()));
    assert_eq!(make_absolute("s.txt", &cwd("/work")), Ok("/work/s.txt".to_string()));
    assert_eq!(make_absolute("a/../b", &cwd("/work")), Ok("/work/a/../b".to_string()));
    assert_eq!(make_absolute("./s", &cwd("/work/")), Ok("/work/./s".to_string()));
}

#[test]
fn a_missing_cwd_matters_only_for_relative_paths() {
    let gone: Result<String, String> = Err("No such file or directory".to_string());
    assert_eq!(make_absolute("/abs", &gone), Ok("/abs".to_string()));
    assert_eq!(
        make_absolute("rel", &gone),
        Err(DotmanError::IoError("No such file or directory".to_string()))
    );
}

#[test]
fn resolve_expands_then_makes_absolute() {
    assert_eq!(resolve("~/x", Some("/home/u"), &cwd("/work")), Ok("/home/u/x".to_string()));
    assert_eq!(resolve("x", Some("/home/u"), &cwd("/work")), Ok("/work/x".to_string()));
    assert_eq!(resolve("/x", None, &cwd("/work")), Ok("/x".to_string()));
    assert_eq!(resolve("~/x", None, &cwd("/work")), Err(DotmanError::NoHomeDirectory));
    // a relative home directory is taken relative to the working directory
    assert_eq!(resolve("~/x", Some("home"), &cwd("/work")), Ok("/work/home/x".to_string()));
    let gone: Result<String, String> = Err("gone".to_string());
    assert_eq!(resolve("x", None, &gone), Err(DotmanError::IoError("gone".to_string())));
}

#[test]
fn the_traits_agree_with_the_functions() {
    let path = "~/foo".to_string();
    assert_eq!(path.expand_tilde_path(Some("/home/u")), Ok("/home/u/foo".to_string()));
    assert_eq!("~/foo".expand_tilde_path(None), Err(DotmanError::NoHomeDirectory));
    assert_eq!("plain".expand_tilde_path(None), Ok("plain".to_string()));
    assert_eq!("rel".absolute(&cwd("/w")), Ok("/w/rel".to_string()));
    assert_eq!("/abs".to_string().absolute(&cwd("/w")), Ok("/abs".to_string()));
}

#[test]
fn supported_systems_are_told_by_name() {
    assert_eq!(get_current_os("linux"), Ok(OperatingSystem::Linux));
    assert_eq!(get_current_os("macos"), Ok(OperatingSystem::MacOS));
    assert_eq!(get_current_os("windows"), Ok(OperatingSystem::Windows));
}

#[test]
fn other_systems_are_unsupported() {
    assert_eq!(
        get_current_os("freebsd"),
        Err(DotmanError::UnsupportedHost("freebsd".to_string()))
    );
    assert_eq!(get_current_os("Linux"), Err(DotmanError::UnsupportedHost("Linux".to_string())));
    assert_eq!(get_current_os(""), Err(DotmanError::UnsupportedHost(String::new())));
}

#[test]
fn hostname_loses_its_trailing_white_space() {
    let printed = |text: &str| Execution::Exited {
        success: true,
        stdout: text.to_string(),
        stderr: String::new(),
    };
    assert_eq!(get_hostname(&printed("alpha\n")), Some("alpha".to_string()));
    assert_eq!(get_hostname(&printed("alpha \r\n\t")), Some("alpha".to_string()));
    assert_eq!(get_hostname(&printed("alpha")), Some("alpha".to_string()));
    assert_eq!(get_hostname(&printed(" alpha\n")), Some(" alpha".to_string()));
    assert_eq!(get_hostname(&printed("\n")), Some(String::new()));
    assert_eq!(get_hostname(&Execution::Failed("no such command".to_string())), None);
}
