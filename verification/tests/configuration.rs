use jclone::{Configuration, OutputStyle, UserConfiguration, UserHostConfiguration};

fn base_user_config() -> UserConfiguration {
    UserConfiguration {
        base_dir: Some(String::from("/some/other/directory")),
        use_host_dir: Some(false),
        use_full_path: Some(false),
        output_style: Some(OutputStyle::Quiet),
        git_executable: Some(String::from("/home/ferris/bin/git")),
        variants: Default::default(),
    }
}

fn complete_user_config() -> UserConfiguration {
    UserConfiguration {
        variants: vec![
            UserHostConfiguration {
                host: String::from("example.org"),
                base_dir: Some(String::from("/dir/example-org")),
                ..UserHostConfiguration::default()
            },
            UserHostConfiguration {
                host: String::from("example.com"),
                base_dir: Some(String::from("/dir/example-com")),
                use_host_dir: Some(true),
                use_full_path: Some(true),
                output_style: Some(OutputStyle::GitOnly),
                git_executable: Some(String::from("bin/git-example-com")),
            },
        ],
        ..base_user_config()
    }
}

fn built_in(home: &str) -> Configuration {
    Configuration {
        base_dir: format!("{home}/src"),
        use_host_dir: true,
        use_full_path: true,
        output_style: OutputStyle::Default,
        git_executable: String::from("git"),
    }
}

#[test]
fn test_from_user_configuration_empty_user_config() {
    let default_user_config = UserConfiguration::default();
    let host = String::from("no-match.example.com");
    let home = String::from("/some/directory");

    let actual = Configuration::from_user_configuration(default_user_config, &host, home);
    let expected = Configuration {
        base_dir: String::from("/some/directory/src"),
        use_host_dir: true,
        use_full_path: true,
        output_style: OutputStyle::Default,
        git_executable: String::from("git"),
    };

    assert_eq!(actual, expected);
}

#[test]
fn test_from_user_configuration_base_user_config() {
    let host = String::from("no-match.example.net");
    let home = String::from("/some/directory");
    let actual = Configuration::from_user_configuration(base_user_config(), &host, home);

    let expected = Configuration {
        base_dir: String::from("/some/other/directory"),
        use_host_dir: false,
        use_full_path: false,
        output_style: OutputStyle::Quiet,
        git_executable: String::from("/home/ferris/bin/git"),
    };

    assert_eq!(actual, expected);
}

#[test]
fn test_from_user_configuration_non_matching_host() {
    let host = String::from("no-match.example.net");
    let home = String::from("/some/directory");
    let actual = Configuration::from_user_configuration(complete_user_config(), &host, home);

    let expected = Configuration {
        base_dir: String::from("/some/other/directory"),
        use_host_dir: false,
        use_full_path: false,
        output_style: OutputStyle::Quiet,
        git_executable: String::from("/home/ferris/bin/git"),
    };

    assert_eq!(actual, expected);
}

#[test]
fn test_from_user_configuration_matching_host() {
    let host = String::from("example.com");
    let home = String::from("/some/directory");
    let actual = Configuration::from_user_configuration(complete_user_config(), &host, home);

    let expected = Configuration {
        base_dir: String::from("/dir/example-com"),
        use_host_dir: true,
        use_full_path: true,
        output_style: OutputStyle::GitOnly,
        git_executable: String::from("bin/git-example-com"),
    };

    assert_eq!(actual, expected);
}

#[test]
fn test_from_user_configuration_partial_config_matching_host_inherits_all_levels() {
    let partial_user_config = UserConfiguration {
        use_full_path: None,
        ..complete_user_config()
    };

    let host = String::from("example.org");
    let home = String::from("/some/directory");
    let actual = Configuration::from_user_configuration(partial_user_config, &host, home);

    let expected = Configuration {
        base_dir: String::from("/dir/example-org"),
        use_host_dir: false,
        use_full_path: true,
        output_style: OutputStyle::Quiet,
        git_executable: String::from("/home/ferris/bin/git"),
    };

    assert_eq!(actual, expected);
}

#[test]
fn empty_configuration_resolves_to_the_built_in_values_for_any_host() {
    for host in ["example.com", "", "no-match.example.com"] {
        let actual = Configuration::from_user_configuration(
            UserConfiguration::default(),
            &String::from(host),
            String::from("/home/u"),
        );
        assert_eq!(
            actual,
            Configuration {
                base_dir: String::from("/home/u/src"),
                use_host_dir: true,
                use_full_path: true,
                output_style: OutputStyle::Default,
                git_executable: String::from("git"),
            }
        );
    }
}

#[test]
fn default_base_dir_is_the_home_directory_with_src_appended() {
    for (home, base_dir) in [("/home/u", "/home/u/src"), ("", "/src"), ("/home/u/", "/home/u//src")] {
        let actual = Configuration::from_user_configuration(
            UserConfiguration::default(),
            &String::from("example.com"),
            String::from(home),
        );
        assert_eq!(actual.base_dir, base_dir);
        assert_eq!(actual, built_in(home));
    }
}

fn only(host: &str, change: fn(&mut UserHostConfiguration)) -> UserConfiguration {
    let mut variant =
        UserHostConfiguration { host: String::from(host), ..UserHostConfiguration::default() };
    change(&mut variant);
    UserConfiguration { variants: vec![variant], ..base_user_config() }
}

fn resolved(user_config: UserConfiguration) -> Configuration {
    Configuration::from_user_configuration(
        user_config,
        &String::from("example.com"),
        String::from("/home/u"),
    )
}

fn from_global() -> Configuration {
    Configuration {
        base_dir: String::from("/some/other/directory"),
        use_host_dir: false,
        use_full_path: false,
        output_style: OutputStyle::Quiet,
        git_executable: String::from("/home/ferris/bin/git"),
    }
}

#[test]
fn variant_that_sets_only_the_base_dir_leaves_the_rest_to_the_global_settings() {
    let actual = resolved(only("example.com", |v| v.base_dir = Some(String::from("/v"))));
    assert_eq!(actual, Configuration { base_dir: String::from("/v"), ..from_global() });
}

#[test]
fn variant_that_sets_only_use_host_dir_leaves_the_rest_to_the_global_settings() {
    let actual = resolved(only("example.com", |v| v.use_host_dir = Some(true)));
    assert_eq!(actual, Configuration { use_host_dir: true, ..from_global() });
}

#[test]
fn variant_that_sets_only_use_full_path_leaves_the_rest_to_the_global_settings() {
    let actual = resolved(only("example.com", |v| v.use_full_path = Some(true)));
    assert_eq!(actual, Configuration { use_full_path: true, ..from_global() });
}

#[test]
fn variant_that_sets_only_the_output_style_leaves_the_rest_to_the_global_settings() {
    let actual = resolved(only("example.com", |v| v.output_style = Some(OutputStyle::NoGit)));
    assert_eq!(actual, Configuration { output_style: OutputStyle::NoGit, ..from_global() });
}

#[test]
fn variant_that_sets_only_the_git_executable_leaves_the_rest_to_the_global_settings() {
    let actual = resolved(only("example.com", |v| v.git_executable = Some(String::from("g"))));
    assert_eq!(actual, Configuration { git_executable: String::from("g"), ..from_global() });
}

#[test]
fn variant_over_an_empty_configuration_leaves_the_rest_to_the_built_in_values() {
    let user_config = UserConfiguration {
        variants: vec![UserHostConfiguration {
            host: String::from("example.com"),
            use_full_path: Some(false),
            ..UserHostConfiguration::default()
        }],
        ..UserConfiguration::default()
    };
    let actual = resolved(user_config);
    assert_eq!(actual, Configuration { use_full_path: false, ..built_in("/home/u") });
}

#[test]
fn variant_for_another_host_changes_nothing() {
    let actual = resolved(only("example.org", |v| v.base_dir = Some(String::from("/v"))));
    assert_eq!(actual, from_global());
}

#[test]
fn second_variant_for_the_same_host_is_not_looked_at() {
    let user_config = UserConfiguration {
        variants: vec![
            UserHostConfiguration {
                host: String::from("example.com"),
                base_dir: Some(String::from("/first")),
                ..UserHostConfiguration::default()
            },
            UserHostConfiguration {
                host: String::from("example.com"),
                base_dir: Some(String::from("/second")),
                use_host_dir: Some(true),
                ..UserHostConfiguration::default()
            },
        ],
        ..base_user_config()
    };
    let actual = resolved(user_config);
    assert_eq!(actual, Configuration { base_dir: String::from("/first"), ..from_global() });
}

#[test]
fn output_style_says_what_is_printed_and_what_is_reported() {
    assert_eq!(OutputStyle::default(), OutputStyle::Default);
    let table = [
        (OutputStyle::Default, true, true),
        (OutputStyle::GitOnly, true, false),
        (OutputStyle::NoGit, false, true),
        (OutputStyle::Quiet, false, false),
    ];
    for (style, print, report) in table {
        assert_eq!(style.print_progress(), print);
        assert_eq!(style.report_errors(), report);
    }
}
