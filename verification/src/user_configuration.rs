//! The configuration as the user wrote it: settings for every host, each of
//! which may be left out, and variants that override them for one host.

use vstd::prelude::*;
use crate::output_style::OutputStyle;

verus! {

/// What the user set for one host. Every setting but `host` may be left out.
#[derive(Debug, PartialEq)]
pub struct UserHostConfiguration {
    pub host: String,
    pub base_dir: Option<String>,
    pub use_host_dir: Option<bool>,
    pub use_full_path: Option<bool>,
    pub output_style: Option<OutputStyle>,
    pub git_executable: Option<String>,
}

/// What the user set for all hosts, and the variants in the order in which
/// they were written.
#[derive(Debug, PartialEq)]
pub struct UserConfiguration {
    pub base_dir: Option<String>,
    pub use_host_dir: Option<bool>,
    pub use_full_path: Option<bool>,
    pub output_style: Option<OutputStyle>,
    pub git_executable: Option<String>,
    pub variants: Vec<UserHostConfiguration>,
}

/// A `UserHostConfiguration` with its texts as sequences of characters.
pub struct UserHostConfigurationView {
    pub host: Seq<char>,
    pub base_dir: Option<Seq<char>>,
    pub use_host_dir: Option<bool>,
    pub use_full_path: Option<bool>,
    pub output_style: Option<OutputStyle>,
    pub git_executable: Option<Seq<char>>,
}

/// A `UserConfiguration` with its texts as sequences of characters.
pub struct UserConfigurationView {
    pub base_dir: Option<Seq<char>>,
    pub use_host_dir: Option<bool>,
    pub use_full_path: Option<bool>,
    pub output_style: Option<OutputStyle>,
    pub git_executable: Option<Seq<char>>,
    pub variants: Seq<UserHostConfigurationView>,
}

impl View for UserHostConfiguration {
    type V = UserHostConfigurationView;

    open spec fn view(&self) -> UserHostConfigurationView {
        UserHostConfigurationView {
            host: self.host@,
            base_dir: self.base_dir.deep_view(),
            use_host_dir: self.use_host_dir,
            use_full_path: self.use_full_path,
            output_style: self.output_style,
            git_executable: self.git_executable.deep_view(),
        }
    }
}

impl View for UserConfiguration {
    type V = UserConfigurationView;

    open spec fn view(&self) -> UserConfigurationView {
        UserConfigurationView {
            base_dir: self.base_dir.deep_view(),
            use_host_dir: self.use_host_dir,
            use_full_path: self.use_full_path,
            output_style: self.output_style,
            git_executable: self.git_executable.deep_view(),
            variants: self.variants@.map_values(|variant: UserHostConfiguration| variant@),
        }
    }
}

impl UserHostConfigurationView {
    /// The variant that sets nothing, for the host without a name.
    pub open spec fn unset() -> UserHostConfigurationView {
        UserHostConfigurationView {
            host: Seq::empty(),
            base_dir: None,
            use_host_dir: None,
            use_full_path: None,
            output_style: None,
            git_executable: None,
        }
    }
}

impl UserConfigurationView {
    /// The configuration that sets nothing and has no variant.
    pub open spec fn unset() -> UserConfigurationView {
        UserConfigurationView {
            base_dir: None,
            use_host_dir: None,
            use_full_path: None,
            output_style: None,
            git_executable: None,
            variants: Seq::empty(),
        }
    }

    /// The hosts of the variants, in the order of the variants.
    pub open spec fn hosts(self) -> Seq<Seq<char>> {
        self.variants.map_values(|variant: UserHostConfigurationView| variant.host)
    }

    /// The first variant written for exactly `host`; where there is none, the
    /// variant that sets nothing.
    pub open spec fn variant_matching_host(self, host: Seq<char>) -> UserHostConfigurationView {
        match self.hosts().index_of_first(host) {
            Some(i) => self.variants[i],
            None => UserHostConfigurationView::unset(),
        }
    }
}

/// A copy of a text that may be left out.
fn copy_of(text: &Option<String>) -> (copy: Option<String>)
    ensures
        copy == *text,
{
    match text {
        Some(text) => Some(text.clone()),
        None => None,
    }
}

impl Clone for UserHostConfiguration {
    fn clone(&self) -> (copy: Self)
        ensures
            copy == *self,
    {
        UserHostConfiguration {
            host: self.host.clone(),
            base_dir: copy_of(&self.base_dir),
            use_host_dir: self.use_host_dir,
            use_full_path: self.use_full_path,
            output_style: self.output_style,
            git_executable: copy_of(&self.git_executable),
        }
    }
}

impl Default for UserHostConfiguration {
    fn default() -> (variant: Self)
        ensures
            variant@ == UserHostConfigurationView::unset(),
    {
        UserHostConfiguration {
            host: String::new(),
            base_dir: None,
            use_host_dir: None,
            use_full_path: None,
            output_style: None,
            git_executable: None,
        }
    }
}

impl Default for UserConfiguration {
    fn default() -> (configuration: Self)
        ensures
            configuration@ == UserConfigurationView::unset(),
    {
        let configuration = UserConfiguration {
            base_dir: None,
            use_host_dir: None,
            use_full_path: None,
            output_style: None,
            git_executable: None,
            variants: Vec::new(),
        };
        assert(configuration@.variants =~= Seq::empty());
        configuration
    }
}

impl UserConfiguration {
    /// The first variant written for exactly `host`, whatever follows it;
    /// where there is none, the variant that sets nothing.
    pub fn variant_matching_host(&self, host: &String) -> (variant: UserHostConfiguration)
        ensures
            variant@ == self@.variant_matching_host(host@),
            match self@.hosts().index_of_first(host@) {
                Some(i) => variant == self.variants@[i],
                None => variant@ == UserHostConfigurationView::unset(),
            },
    {
        let ghost hosts = self@.hosts();
        let mut i: usize = 0;
        while i < self.variants.len()
            invariant
                i <= self.variants.len(),
                hosts == self@.hosts(),
                hosts.len() == self.variants.len(),
                forall|j: int| 0 <= j < i ==> hosts[j] != host@,
            decreases self.variants.len() - i,
        {
            if self.variants[i].host == *host {
                proof {
                    hosts.index_of_first_ensures(host@);
                    assert(hosts[i as int] == host@);
                    let first = hosts.index_of_first(host@)->Some_0;
                    if first < i {
                        assert(hosts[first] != host@);
                    }
                }
                return self.variants[i].clone();
            }
            i += 1;
        }
        proof {
            hosts.index_of_first_ensures(host@);
        }
        UserHostConfiguration::default()
    }
}

} // verus!
