use jclone::{target_dir, Configuration, OutputStyle, Repository};
use std::path::PathBuf;

fn default_repo() -> Repository {
    Repository { host: String::from("example.com"), path: String::from("some/big/long/path") }
}

fn default_config() -> Configuration {
    Configuration {
        base_dir: String::from("/home/ferris/src"),
        use_host_dir: true,
        use_full_path: true,
        output_style: OutputStyle::default(),
        git_executable: String::from("git"),
    }
}

fn with_path(path: &str) -> Repository {
    Repository { path: String::from(path), ..default_repo() }
}

fn last_only() -> Configuration {
    Configuration { use_full_path: false, ..default_config() }
}

#[test]
fn test_target_dir_returns_whole_path_given_default_config() {
    assert_eq!(
        PathBuf::from(target_dir(&default_repo(), &default_config())),
        PathBuf::from("/home/ferris/src/example.com/some/big/long/path")
    )
}

#[test]
fn test_target_dir_skips_host_dir_when_use_host_dir_is_false() {
    let config = Configuration { use_host_dir: false, ..default_config() };

    assert_eq!(
        PathBuf::from(target_dir(&default_repo(), &config)),
        PathBuf::from("/home/ferris/src/some/big/long/path")
    )
}

#[test]
fn test_target_dir_ensures_repo_path_is_relative() {
    let repo = Repository { path: String::from("/some/absolute/path"), ..default_repo() };

    assert_eq!(
        PathBuf::from(target_dir(&repo, &default_config())),
        PathBuf::from("/home/ferris/src/example.com/some/absolute/path")
    )
}

#[test]
fn test_target_dir_uses_only_project_name_when_use_full_path_is_false() {
    let config = Configuration { use_full_path: false, ..default_config() };

    assert_eq!(
        PathBuf::from(target_dir(&default_repo(), &config)),
        PathBuf::from("/home/ferris/src/example.com/path")
    )
}

#[test]
fn target_dir_is_written_with_single_slashes() {
    assert_eq!(
        target_dir(&default_repo(), &default_config()),
        "/home/ferris/src/example.com/some/big/long/path"
    );
    assert_eq!(
        target_dir(&with_path("//some///big/long//path/"), &default_config()),
        "/home/ferris/src/example.com/some/big/long/path"
    );
}

#[test]
fn only_the_last_segment_is_kept_however_many_precede_it() {
    for path in ["path", "long/path", "big/long/path", "some/big/long/path", "/a/b/c/d/e/f/path/"] {
        assert_eq!(target_dir(&with_path(path), &last_only()), "/home/ferris/src/example.com/path");
    }
}

#[test]
fn neither_host_dir_nor_full_path() {
    let config = Configuration { use_host_dir: false, use_full_path: false, ..default_config() };
    assert_eq!(target_dir(&default_repo(), &config), "/home/ferris/src/path");
}

#[test]
fn path_without_segments_adds_nothing() {
    for path in ["", "/", "///"] {
        assert_eq!(target_dir(&with_path(path), &default_config()), "/home/ferris/src/example.com");
        assert_eq!(target_dir(&with_path(path), &last_only()), "/home/ferris/src/example.com");
    }
}

#[test]
fn base_dir_that_ends_with_a_slash_gets_no_second_one() {
    let config = Configuration { base_dir: String::from("/srv/"), ..default_config() };
    assert_eq!(target_dir(&with_path("a/b"), &config), "/srv/example.com/a/b");
    let root = Configuration { base_dir: String::from("/"), use_host_dir: false, ..default_config() };
    assert_eq!(target_dir(&with_path("a/b"), &root), "/a/b");
}

#[test]
fn empty_base_dir_gets_no_slash_in_front() {
    let config = Configuration { base_dir: String::new(), ..default_config() };
    assert_eq!(target_dir(&with_path("a/b"), &config), "example.com/a/b");
    let bare = Configuration { base_dir: String::new(), use_host_dir: false, ..default_config() };
    assert_eq!(target_dir(&with_path("/a/b"), &bare), "a/b");
}

#[test]
fn segments_are_taken_as_they_are_written() {
    assert_eq!(
        target_dir(&with_path("../up/./here"), &default_config()),
        "/home/ferris/src/example.com/../up/./here"
    );
    assert_eq!(target_dir(&with_path("a/.."), &last_only()), "/home/ferris/src/example.com/..");
}

#[test]
fn empty_host_leaves_a_slash_behind_the_base_dir() {
    let repo = Repository { host: String::new(), path: String::from("a") };
    assert_eq!(target_dir(&repo, &default_config()), "/home/ferris/src/a");
    let nothing = Repository { host: String::new(), path: String::new() };
    assert_eq!(target_dir(&nothing, &default_config()), "/home/ferris/src/");
}

#[test]
fn target_dir_begins_with_the_base_dir() {
    for path in ["a", "/a/b", "../../etc", "", "a//b/"] {
        for config in [default_config(), last_only()] {
            let dir = target_dir(&with_path(path), &config);
            assert!(dir.starts_with("/home/ferris/src"));
        }
    }
}

#[test]
fn characters_outside_ascii_in_every_part() {
    let repo = Repository { host: String::from("höst"), path: String::from("päth/répo") };
    let config = Configuration { base_dir: String::from("/hôme"), ..default_config() };
    assert_eq!(target_dir(&repo, &config), "/hôme/höst/päth/répo");
}

#[test]
fn parsed_reference_goes_under_its_host() {
    let repo = Repository::try_from(&String::from("ssh://git@example.com:/my_user/my_repo.git"))
        .unwrap();
    assert_eq!(
        target_dir(&repo, &default_config()),
        "/home/ferris/src/example.com/my_user/my_repo"
    );
    assert_eq!(target_dir(&repo, &last_only()), "/home/ferris/src/example.com/my_repo");
}
