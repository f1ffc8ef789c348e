//! The configuration in force for one host: every setting resolved, none left
//! out.

use vstd::prelude::*;
use vstd::string::StringExecFns;
use crate::output_style::OutputStyle;
use crate::user_configuration::{
    UserConfiguration, UserConfigurationView, UserHostConfigurationView,
};

verus! {

/// The settings that a run goes by.
#[derive(Debug, PartialEq)]
pub struct Configuration {
    pub base_dir: String,
    pub use_host_dir: bool,
    pub use_full_path: bool,
    pub output_style: OutputStyle,
    pub git_executable: String,
}

/// A `Configuration` with its texts as sequences of characters.
pub struct ConfigurationView {
    pub base_dir: Seq<char>,
    pub use_host_dir: bool,
    pub use_full_path: bool,
    pub output_style: OutputStyle,
    pub git_executable: Seq<char>,
}

impl View for Configuration {
    type V = ConfigurationView;

    open spec fn view(&self) -> ConfigurationView {
        ConfigurationView {
            base_dir: self.base_dir@,
            use_host_dir: self.use_host_dir,
            use_full_path: self.use_full_path,
            output_style: self.output_style,
            git_executable: self.git_executable@,
        }
    }
}

/// One setting, resolved: what the variant sets, else what is set for all
/// hosts, else the built-in value.
pub open spec fn first_set<T>(variant: Option<T>, global: Option<T>, built_in: T) -> T {
    match variant {
        Some(value) => value,
        None => match global {
            Some(value) => value,
            None => built_in,
        },
    }
}

/// The directory that clones go under where the user names none: `src` in the
/// home directory.
pub open spec fn default_base_dir(home: Seq<char>) -> Seq<char> {
    home + "/src"@
}

/// The configuration in force for `host`: each setting resolved by itself,
/// from the first variant written for `host`, the settings for all hosts and
/// the built-in values, in this order.
pub open spec fn resolve(user: UserConfigurationView, host: Seq<char>, home: Seq<char>)
    -> ConfigurationView {
    let variant = user.variant_matching_host(host);
    ConfigurationView {
        base_dir: first_set(variant.base_dir, user.base_dir, default_base_dir(home)),
        use_host_dir: first_set(variant.use_host_dir, user.use_host_dir, true),
        use_full_path: first_set(variant.use_full_path, user.use_full_path, true),
        output_style: first_set(variant.output_style, user.output_style, OutputStyle::Default),
        git_executable: first_set(variant.git_executable, user.git_executable, "git"@),
    }
}

/// One setting, resolved.
fn pick<T>(variant: Option<T>, global: Option<T>, built_in: T) -> (value: T)
    ensures
        value == first_set(variant, global, built_in),
{
    match variant {
        Some(value) => value,
        None => match global {
            Some(value) => value,
            None => built_in,
        },
    }
}

impl Configuration {
    /// Resolves what the user wrote into the configuration in force for
    /// `host`, with `home` as the home directory.
    pub fn from_user_configuration(user_config: UserConfiguration, host: &String, home: String) -> (
        configuration: Configuration
    )
        ensures
            configuration@ == resolve(user_config@, host@, home@),
    {
        let variant = user_config.variant_matching_host(host);
        Configuration {
            base_dir: pick(variant.base_dir, user_config.base_dir, home.concat("/src")),
            use_host_dir: pick(variant.use_host_dir, user_config.use_host_dir, true),
            use_full_path: pick(variant.use_full_path, user_config.use_full_path, true),
            output_style: pick(
                variant.output_style,
                user_config.output_style,
                OutputStyle::Default,
            ),
            git_executable: pick(
                variant.git_executable,
                user_config.git_executable,
                String::from_str("git"),
            ),
        }
    }
}

/// A configuration without any variant resolves the same for every host.
pub proof fn lemma_no_variant_matches(user: UserConfigurationView, host: Seq<char>)
    requires
        user.variants.len() == 0,
    ensures
        user.variant_matching_host(host) == UserHostConfigurationView::unset(),
{
    user.hosts().index_of_first_ensures(host);
}

/// Where the user wrote nothing, the built-in values are in force, for every
/// host: `src` under the home directory, a directory for the host, the full
/// path, the default style and `git`.
pub proof fn lemma_resolve_unset(host: Seq<char>, home: Seq<char>)
    ensures
        resolve(UserConfigurationView::unset(), host, home) == (ConfigurationView {
            base_dir: home + "/src"@,
            use_host_dir: true,
            use_full_path: true,
            output_style: OutputStyle::Default,
            git_executable: "git"@,
        }),
{
    lemma_no_variant_matches(UserConfigurationView::unset(), host);
}

/// Settings are resolved one by one: a setting that the variant for `host`
/// leaves out is resolved as if there were no variant at all, from what is set
/// for all hosts or else the built-in value, whatever the variant sets beside
/// it.
pub proof fn lemma_resolve_field_independence(
    user: UserConfigurationView,
    host: Seq<char>,
    home: Seq<char>,
)
    ensures
        ({
            let variant = user.variant_matching_host(host);
            let plain = resolve(
                UserConfigurationView { variants: Seq::empty(), ..user },
                host,
                home,
            );
            let resolved = resolve(user, host, home);
            &&& variant.base_dir is None ==> resolved.base_dir == plain.base_dir
            &&& variant.use_host_dir is None ==> resolved.use_host_dir == plain.use_host_dir
            &&& variant.use_full_path is None ==> resolved.use_full_path == plain.use_full_path
            &&& variant.output_style is None ==> resolved.output_style == plain.output_style
            &&& variant.git_executable is None ==> resolved.git_executable
                == plain.git_executable
            &&& plain.base_dir == first_set(None, user.base_dir, default_base_dir(home))
            &&& plain.use_host_dir == first_set(None, user.use_host_dir, true)
            &&& plain.use_full_path == first_set(None, user.use_full_path, true)
            &&& plain.output_style == first_set(None, user.output_style, OutputStyle::Default)
            &&& plain.git_executable == first_set(None, user.git_executable, "git"@)
        }),
{
    lemma_no_variant_matches(UserConfigurationView { variants: Seq::empty(), ..user }, host);
}

/// What a variant sets wins over what is set for all hosts.
pub proof fn lemma_variant_wins(user: UserConfigurationView, host: Seq<char>, home: Seq<char>)
    ensures
        ({
            let variant = user.variant_matching_host(host);
            let resolved = resolve(user, host, home);
            &&& variant.base_dir matches Some(value) ==> resolved.base_dir == value
            &&& variant.use_host_dir matches Some(value) ==> resolved.use_host_dir == value
            &&& variant.use_full_path matches Some(value) ==> resolved.use_full_path == value
            &&& variant.output_style matches Some(value) ==> resolved.output_style == value
            &&& variant.git_executable matches Some(value) ==> resolved.git_executable == value
        }),
{
}

} // verus!
