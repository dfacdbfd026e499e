//! The `config` command: showing, adding, switching and removing URL profiles.
//!
//! `execute` decides and applies the change to the configuration; saving it
//! to disk and printing the outcome are left to the caller.

use vstd::prelude::*;
use crate::config::{Config, ConfigView, opt_view, resolved_url};
use crate::profiles::ProfileMap;
use crate::text::{concat3, has_prefix, starts_with, str_eq};

verus! {

/// A `config` subcommand.
pub enum ConfigAction {
    Show,
    List,
    Add { name: String, url: String },
    Use { name: String },
    Remove { name: String },
    SetValue { key: String, value: String },
    Reset,
}

/// One configured profile as listed.
pub struct ProfileLine {
    pub name: String,
    pub url: String,
    pub active: bool,
}

impl ProfileLine {
    pub open spec fn view(&self) -> (Seq<char>, Seq<char>, bool) {
        (self.name@, self.url@, self.active)
    }
}

/// What a `config` subcommand did.
pub enum ConfigOutcome {
    /// The current configuration: active profile name ("default" when none),
    /// the URL in effect, and the profiles in order.
    Show { active_profile: String, active_url: String, profiles: Vec<ProfileLine> },
    /// The profiles in order.
    List { profiles: Vec<ProfileLine> },
    /// A profile was stored; `replaced` when the name already existed,
    /// `activated` when it became the active profile.
    Added { name: String, replaced: bool, activated: bool },
    /// The active profile changed.
    Switched { name: String, url: String },
    Removed { name: String },
    /// The default URL was set.
    UrlSet { url: String },
    /// The configuration file is to be deleted.
    Reset,
}

impl ConfigOutcome {
    /// Whether the configuration changed and must be saved.
    pub open spec fn changes_config(self) -> bool {
        self is Added || self is Switched || self is Removed || self is UrlSet
    }
}

/// Why a `config` subcommand was refused.
pub enum ConfigError {
    /// The URL does not start with `http://` or `https://`.
    InvalidUrl,
    /// No profile has this name; the names of the existing ones are listed.
    ProfileNotFound { name: String, available: Vec<String> },
    /// Removing a profile that does not exist.
    UnknownProfile { name: String },
    /// Removing the active profile.
    ActiveProfile { name: String },
    /// Setting a key other than `OLLAMA_URL` or `url`.
    UnknownKey { key: String },
}

impl ConfigError {
    /// The message shown for the error (a missing profile is reported with
    /// the list of those that exist).
    pub fn message(&self) -> (s: String)
        ensures
            s@ == match self {
                ConfigError::InvalidUrl => "URL must start with http:// or https://"@,
                ConfigError::ProfileNotFound { name, .. } => "URL '"@ + name@ + "' not found"@,
                ConfigError::UnknownProfile { name } => "URL '"@ + name@ + "' not found"@,
                ConfigError::ActiveProfile { name } => "Cannot remove active URL '"@ + name@
                    + "'\nSwitch to another URL first with: ollama-cli config use <name>"@,
                ConfigError::UnknownKey { key } => "Unknown configuration key '"@ + key@
                    + "'\nAvailable keys: OLLAMA_URL, url"@,
            },
    {
        match self {
            ConfigError::InvalidUrl => "URL must start with http:// or https://".to_string(),
            ConfigError::ProfileNotFound { name, .. } => concat3("URL '", name.as_str(), "' not found"),
            ConfigError::UnknownProfile { name } => concat3("URL '", name.as_str(), "' not found"),
            ConfigError::ActiveProfile { name } => concat3(
                "Cannot remove active URL '",
                name.as_str(),
                "'\nSwitch to another URL first with: ollama-cli config use <name>",
            ),
            ConfigError::UnknownKey { key } => concat3(
                "Unknown configuration key '",
                key.as_str(),
                "'\nAvailable keys: OLLAMA_URL, url",
            ),
        }
    }
}

/// Whether `url` starts with `http://` or `https://`.
pub open spec fn valid_url(url: Seq<char>) -> bool {
    has_prefix(url, "http://"@) || has_prefix(url, "https://"@)
}

/// The listing of the profiles in `s`, each flagged when it is the active one.
pub open spec fn profile_lines(s: Seq<(Seq<char>, Seq<char>)>, active: Option<Seq<char>>) -> Seq<
    (Seq<char>, Seq<char>, bool),
> {
    s.map_values(|e: (Seq<char>, Seq<char>)| (e.0, e.1, active == Some(e.0)))
}

pub open spec fn lines_view(v: Vec<ProfileLine>) -> Seq<(Seq<char>, Seq<char>, bool)> {
    v@.map_values(|l: ProfileLine| l@)
}

/// The configuration after `Add { name, url }` with a valid URL: the profile is
/// stored, and when no profile was active it becomes the active one and its
/// URL the default URL.
pub open spec fn added_view(c: ConfigView, name: Seq<char>, url: Seq<char>) -> ConfigView {
    if c.1 is None {
        (url, Some(name), c.2.insert(name, url))
    } else {
        (c.0, c.1, c.2.insert(name, url))
    }
}

/// URL precedence: a command line override wins; without one, the active
/// profile's URL is used when that profile exists; otherwise the default URL.
pub proof fn law_url_precedence(c: ConfigView, cli_override: Option<Seq<char>>)
    ensures
        cli_override matches Some(u) ==> resolved_url(c, cli_override) == u,
        cli_override is None && (c.1 matches Some(p) && c.2.contains_key(p)) ==> resolved_url(
            c,
            cli_override,
        ) == c.2[c.1->0],
        cli_override is None && !(c.1 matches Some(p) && c.2.contains_key(p)) ==> resolved_url(
            c,
            cli_override,
        ) == c.0,
{
}

/// The first profile added to a configuration without an active profile
/// becomes the one the tool connects to.
pub proof fn law_first_profile_is_used(c: ConfigView, name: Seq<char>, url: Seq<char>)
    requires
        c.1 is None,
    ensures
        resolved_url(added_view(c, name, url), None) == url,
{
}

/// After adding a profile and switching to it, the tool connects to the
/// profile's URL, whatever the configuration was before.
pub proof fn law_add_then_use(c: ConfigView, name: Seq<char>, url: Seq<char>)
    ensures
        added_view(c, name, url).2.contains_key(name),
        added_view(c, name, url).2[name] == url,
        resolved_url(
            (added_view(c, name, url).2[name], Some(name), added_view(c, name, url).2),
            None,
        ) == url,
{
}

/// Removing a profile that is not the active one leaves the URL that the
/// tool connects to unchanged.
pub proof fn law_remove_inactive_keeps_url(c: ConfigView, name: Seq<char>)
    requires
        c.1 != Some(name),
    ensures
        resolved_url((c.0, c.1, c.2.remove(name)), None) == resolved_url(c, None),
{
}

/// Adding a profile keeps every other profile as it was.
pub proof fn law_add_keeps_others(c: ConfigView, name: Seq<char>, url: Seq<char>, other: Seq<char>)
    requires
        other != name,
    ensures
        added_view(c, name, url).2.contains_key(other) == c.2.contains_key(other),
        c.2.contains_key(other) ==> added_view(c, name, url).2[other] == c.2[other],
{
}

/// The profiles of `urls` as listed, flagging `active`.
pub fn list_profiles(urls: &ProfileMap, active: &Option<String>) -> (r: Vec<ProfileLine>)
    ensures
        lines_view(r) == profile_lines(urls@, opt_view(*active)),
{
    let mut out: Vec<ProfileLine> = Vec::new();
    let n = urls.len();
    let mut i: usize = 0;
    while i < n
        invariant
            n == urls@.len(),
            i <= n,
            lines_view(out) == profile_lines(urls@, opt_view(*active)).subrange(0, i as int),
        decreases n - i,
    {
        let name = urls.name_at(i).clone();
        let url = urls.url_at(i).clone();
        let is_active = match active {
            Some(a) => str_eq(a.as_str(), name.as_str()),
            None => false,
        };
        let ghost before = lines_view(out);
        out.push(ProfileLine { name, url, active: is_active });
        assert(lines_view(out) =~= before.push(lines_view(out)[i as int]));
        assert(profile_lines(urls@, opt_view(*active)).subrange(0, i + 1) =~= profile_lines(
            urls@,
            opt_view(*active),
        ).subrange(0, i as int).push(profile_lines(urls@, opt_view(*active))[i as int]));
        i += 1;
    }
    assert(profile_lines(urls@, opt_view(*active)).subrange(0, n as int) =~= profile_lines(
        urls@,
        opt_view(*active),
    ));
    out
}

/// The names of all profiles, in order.
pub fn profile_names(urls: &ProfileMap) -> (r: Vec<String>)
    ensures
        r@.map_values(|s: String| s@) == urls.names(),
{
    let mut out: Vec<String> = Vec::new();
    let n = urls.len();
    let mut i: usize = 0;
    while i < n
        invariant
            n == urls@.len(),
            i <= n,
            out@.map_values(|s: String| s@) == urls.names().subrange(0, i as int),
        decreases n - i,
    {
        let ghost before = out@.map_values(|s: String| s@);
        out.push(urls.name_at(i).clone());
        assert(out@.map_values(|s: String| s@) =~= before.push(urls@[i as int].0));
        assert(urls.names().subrange(0, i + 1) =~= urls.names().subrange(0, i as int).push(
            urls@[i as int].0,
        ));
        i += 1;
    }
    assert(urls.names().subrange(0, n as int) =~= urls.names());
    out
}

/// Whether `url` starts with `http://` or `https://`.
pub fn is_valid_url(url: &str) -> (b: bool)
    ensures
        b == valid_url(url@),
{
    starts_with(url, "http://") || starts_with(url, "https://")
}

/// Runs a `config` subcommand (none means `Show`) against `config`.
///
/// On success the configuration holds the change and the outcome says what
/// happened; when the outcome changes the configuration, the caller saves it.
/// On error the configuration is unchanged.
pub fn execute(action: Option<ConfigAction>, config: &mut Config) -> (r: Result<
    ConfigOutcome,
    ConfigError,
>)
    ensures
        match r {
            Ok(o) => !o.changes_config() ==> final(config)@ == old(config)@,
            Err(_) => final(config)@ == old(config)@,
        },
        match action {
            None | Some(ConfigAction::Show) => match r {
                Ok(ConfigOutcome::Show { active_profile, active_url, profiles }) => {
                    &&& active_profile@ == match opt_view(old(config).active_profile) {
                        Some(p) => p,
                        None => "default"@,
                    }
                    &&& active_url@ == resolved_url(old(config)@, None)
                    &&& lines_view(profiles) == profile_lines(
                        old(config).urls@,
                        opt_view(old(config).active_profile),
                    )
                },
                _ => false,
            },
            Some(ConfigAction::List) => match r {
                Ok(ConfigOutcome::List { profiles }) => lines_view(profiles) == profile_lines(
                    old(config).urls@,
                    opt_view(old(config).active_profile),
                ),
                _ => false,
            },
            Some(ConfigAction::Add { name, url }) => if !valid_url(url@) {
                r matches Err(ConfigError::InvalidUrl)
            } else {
                match r {
                    Ok(ConfigOutcome::Added { name: n, replaced, activated }) => {
                        &&& n@ == name@
                        &&& replaced == old(config)@.2.contains_key(name@)
                        &&& activated == (old(config)@.1 is None)
                        &&& final(config)@ == added_view(old(config)@, name@, url@)
                    },
                    _ => false,
                }
            },
            Some(ConfigAction::Use { name }) => if old(config)@.2.contains_key(name@) {
                match r {
                    Ok(ConfigOutcome::Switched { name: n, url }) => {
                        &&& n@ == name@
                        &&& url@ == old(config)@.2[name@]
                        &&& final(config)@ == (url@, Some(name@), old(config)@.2)
                    },
                    _ => false,
                }
            } else {
                match r {
                    Err(ConfigError::ProfileNotFound { name: n, available }) => {
                        &&& n@ == name@
                        &&& available@.map_values(|s: String| s@) == old(config).urls.names()
                    },
                    _ => false,
                }
            },
            Some(ConfigAction::Remove { name }) => if !old(config)@.2.contains_key(name@) {
                match r {
                    Err(ConfigError::UnknownProfile { name: n }) => n@ == name@,
                    _ => false,
                }
            } else if old(config)@.1 == Some(name@) {
                match r {
                    Err(ConfigError::ActiveProfile { name: n }) => n@ == name@,
                    _ => false,
                }
            } else {
                match r {
                    Ok(ConfigOutcome::Removed { name: n }) => {
                        &&& n@ == name@
                        &&& final(config)@ == (
                            old(config)@.0,
                            old(config)@.1,
                            old(config)@.2.remove(name@),
                        )
                    },
                    _ => false,
                }
            },
            Some(ConfigAction::SetValue { key, value }) => if key@ == "OLLAMA_URL"@ || key@ == "url"@ {
                match r {
                    Ok(ConfigOutcome::UrlSet { url }) => {
                        &&& url@ == value@
                        &&& final(config)@ == (value@, old(config)@.1, old(config)@.2)
                    },
                    _ => false,
                }
            } else {
                match r {
                    Err(ConfigError::UnknownKey { key: k }) => k@ == key@,
                    _ => false,
                }
            },
            Some(ConfigAction::Reset) => r matches Ok(ConfigOutcome::Reset),
        },
{
    match action {
        None | Some(ConfigAction::Show) => {
            let active_profile = match &config.active_profile {
                Some(p) => p.clone(),
                None => "default".to_string(),
            };
            let active_url = config.resolve_url(None);
            let profiles = list_profiles(&config.urls, &config.active_profile);
            Ok(ConfigOutcome::Show { active_profile, active_url, profiles })
        },
        Some(ConfigAction::List) => {
            let profiles = list_profiles(&config.urls, &config.active_profile);
            Ok(ConfigOutcome::List { profiles })
        },
        Some(ConfigAction::Add { name, url }) => {
            if !is_valid_url(url.as_str()) {
                return Err(ConfigError::InvalidUrl);
            }
            let replaced = config.urls.contains_key(name.as_str());
            config.urls.insert(name.clone(), url.clone());
            let activated = config.active_profile.is_none();
            if activated {
                config.active_profile = Some(name.clone());
                config.default_url = url;
            }
            Ok(ConfigOutcome::Added { name, replaced, activated })
        },
        Some(ConfigAction::Use { name }) => {
            match config.urls.get(name.as_str()) {
                Some(u) => {
                    let url = u.clone();
                    config.active_profile = Some(name.clone());
                    config.default_url = url.clone();
                    Ok(ConfigOutcome::Switched { name, url })
                },
                None => {
                    let available = profile_names(&config.urls);
                    Err(ConfigError::ProfileNotFound { name, available })
                },
            }
        },
        Some(ConfigAction::Remove { name }) => {
            if !config.urls.contains_key(name.as_str()) {
                return Err(ConfigError::UnknownProfile { name });
            }
            let is_active = match &config.active_profile {
                Some(a) => str_eq(a.as_str(), name.as_str()),
                None => false,
            };
            if is_active {
                return Err(ConfigError::ActiveProfile { name });
            }
            config.urls.remove(name.as_str());
            Ok(ConfigOutcome::Removed { name })
        },
        Some(ConfigAction::SetValue { key, value }) => {
            if str_eq(key.as_str(), "OLLAMA_URL") || str_eq(key.as_str(), "url") {
                config.default_url = value.clone();
                Ok(ConfigOutcome::UrlSet { url: value })
            } else {
                Err(ConfigError::UnknownKey { key })
            }
        },
        Some(ConfigAction::Reset) => Ok(ConfigOutcome::Reset),
    }
}

} // verus!
