//! The connection topology and how it is resolved from a configuration
//! source.
//!
//! A configuration names the target host and, when the target can only be
//! reached through a relay, the relay host as well. The two shapes exclude
//! each other: a direct configuration carries no relay, a relayed one carries
//! both relay fields.

use crate::lua::{error_text, global_flag, global_text, run_script};
use vstd::prelude::*;
use vstd::string::StringExecFns;

verus! {

/// A text field that a configuration source may define.
#[derive(Clone, Copy, Debug, PartialEq, Eq, Structural)]
pub enum Field {
    TargetHost,
    Username,
    HomelabHost,
    HomelabUsername,
    VpsHost,
    VpsUsername,
}

impl Field {
    /// The name under which the source defines the field.
    pub open spec fn spec_name(self) -> Seq<char> {
        match self {
            Field::TargetHost => "target_host"@,
            Field::Username => "username"@,
            Field::HomelabHost => "homelab_host"@,
            Field::HomelabUsername => "homelab_username"@,
            Field::VpsHost => "vps_host"@,
            Field::VpsUsername => "vps_username"@,
        }
    }

    /// The name under which the source defines the field.
    pub fn name(self) -> (name: &'static str)
        ensures
            name@ == self.spec_name(),
    {
        match self {
            Field::TargetHost => "target_host",
            Field::Username => "username",
            Field::HomelabHost => "homelab_host",
            Field::HomelabUsername => "homelab_username",
            Field::VpsHost => "vps_host",
            Field::VpsUsername => "vps_username",
        }
    }
}

/// Why no configuration could be had.
#[derive(Clone, Debug, PartialEq, Eq)]
pub enum ConfigError {
    /// The source could not be read or evaluated; `reason` says why.
    Unreadable { reason: String },
    /// The source does not define, as text, a field that its topology needs.
    Missing { field: Field },
}

/// Mathematical form of a [`ConfigError`].
pub enum ConfigErrorView {
    Unreadable { reason: Seq<char> },
    Missing { field: Field },
}

impl View for ConfigError {
    type V = ConfigErrorView;

    open spec fn view(&self) -> ConfigErrorView {
        match self {
            ConfigError::Unreadable { reason } => ConfigErrorView::Unreadable { reason: reason@ },
            ConfigError::Missing { field } => ConfigErrorView::Missing { field: *field },
        }
    }
}

impl ConfigErrorView {
    /// The error in words, as it goes into the log.
    pub open spec fn message(self) -> Seq<char> {
        match self {
            ConfigErrorView::Unreadable { reason } => reason,
            ConfigErrorView::Missing { field } => "required field is missing or not text: "@
                + field.spec_name(),
        }
    }
}

impl ConfigError {
    /// The error in words, as it goes into the log.
    pub fn message(&self) -> (text: String)
        ensures
            text@ == self@.message(),
    {
        match self {
            ConfigError::Unreadable { reason } => reason.clone(),
            ConfigError::Missing { field } => {
                let mut text = "required field is missing or not text: ".to_owned();
                text.append(field.name());
                text
            },
        }
    }
}

/// The connection topology in force for one invocation.
///
/// With `direct_connection` the target is reached in one hop and the two
/// relay fields are absent; without, the target is reached through the relay
/// and both are present.
#[derive(Clone, Debug, PartialEq, Eq)]
pub struct Config {
    pub direct_connection: bool,
    pub target_host: String,
    pub username: String,
    pub vps_host: Option<String>,
    pub vps_username: Option<String>,
}

/// Mathematical form of a [`Config`].
pub struct ConfigView {
    pub direct_connection: bool,
    pub target_host: Seq<char>,
    pub username: Seq<char>,
    pub vps_host: Option<Seq<char>>,
    pub vps_username: Option<Seq<char>>,
}

impl View for Config {
    type V = ConfigView;

    open spec fn view(&self) -> ConfigView {
        ConfigView {
            direct_connection: self.direct_connection,
            target_host: self.target_host@,
            username: self.username@,
            vps_host: self.vps_host.deep_view(),
            vps_username: self.vps_username.deep_view(),
        }
    }
}

impl ConfigView {
    /// A direct configuration.
    pub open spec fn direct(target_host: Seq<char>, username: Seq<char>) -> ConfigView {
        ConfigView {
            direct_connection: true,
            target_host,
            username,
            vps_host: None,
            vps_username: None,
        }
    }

    /// A relayed configuration.
    pub open spec fn relayed(
        target_host: Seq<char>,
        username: Seq<char>,
        vps_host: Seq<char>,
        vps_username: Seq<char>,
    ) -> ConfigView {
        ConfigView {
            direct_connection: false,
            target_host,
            username,
            vps_host: Some(vps_host),
            vps_username: Some(vps_username),
        }
    }

    /// Exactly one topology is described: no relay field with a direct
    /// connection, both with a relayed one.
    pub open spec fn wf(self) -> bool {
        if self.direct_connection {
            self.vps_host is None && self.vps_username is None
        } else {
            self.vps_host is Some && self.vps_username is Some
        }
    }

    /// The relay is needed and at least one of its fields is absent.
    pub open spec fn relay_missing(self) -> bool {
        !self.direct_connection && (self.vps_host is None || self.vps_username is None)
    }
}

/// What a configuration source defines: the flag that selects the topology,
/// and each text field, absent where the source does not define it as text.
#[derive(Clone, Debug, PartialEq, Eq)]
pub struct Source {
    pub direct_connection: bool,
    pub target_host: Option<String>,
    pub username: Option<String>,
    pub homelab_host: Option<String>,
    pub homelab_username: Option<String>,
    pub vps_host: Option<String>,
    pub vps_username: Option<String>,
}

/// Mathematical form of a [`Source`].
pub struct SourceView {
    pub direct_connection: bool,
    pub target_host: Option<Seq<char>>,
    pub username: Option<Seq<char>>,
    pub homelab_host: Option<Seq<char>>,
    pub homelab_username: Option<Seq<char>>,
    pub vps_host: Option<Seq<char>>,
    pub vps_username: Option<Seq<char>>,
}

impl View for Source {
    type V = SourceView;

    open spec fn view(&self) -> SourceView {
        SourceView {
            direct_connection: self.direct_connection,
            target_host: self.target_host.deep_view(),
            username: self.username.deep_view(),
            homelab_host: self.homelab_host.deep_view(),
            homelab_username: self.homelab_username.deep_view(),
            vps_host: self.vps_host.deep_view(),
            vps_username: self.vps_username.deep_view(),
        }
    }
}

impl SourceView {
    /// The topology that the source describes.
    ///
    /// With the flag set the source is direct: it must define `target_host`
    /// and `username`, and whatever it says of a relay is ignored. Without,
    /// it is relayed: it must define `homelab_host`, `homelab_username`,
    /// `vps_host` and `vps_username`. The first field that is missing, in
    /// that order, is the error.
    pub open spec fn resolve(self) -> Result<ConfigView, ConfigErrorView> {
        if self.direct_connection {
            if self.target_host is None {
                Err(ConfigErrorView::Missing { field: Field::TargetHost })
            } else if self.username is None {
                Err(ConfigErrorView::Missing { field: Field::Username })
            } else {
                Ok(ConfigView::direct(self.target_host->0, self.username->0))
            }
        } else {
            if self.homelab_host is None {
                Err(ConfigErrorView::Missing { field: Field::HomelabHost })
            } else if self.homelab_username is None {
                Err(ConfigErrorView::Missing { field: Field::HomelabUsername })
            } else if self.vps_host is None {
                Err(ConfigErrorView::Missing { field: Field::VpsHost })
            } else if self.vps_username is None {
                Err(ConfigErrorView::Missing { field: Field::VpsUsername })
            } else {
                Ok(
                    ConfigView::relayed(
                        self.homelab_host->0,
                        self.homelab_username->0,
                        self.vps_host->0,
                        self.vps_username->0,
                    ),
                )
            }
        }
    }
}

/// Mathematical form of the result of loading a configuration.
pub open spec fn loaded_view(loaded: Result<Config, ConfigError>) -> Result<
    ConfigView,
    ConfigErrorView,
> {
    match loaded {
        Ok(config) => Ok(config@),
        Err(error) => Err(error@),
    }
}

/// What a source is taken to define when the interpreter was asked for a
/// field as text: the text it gave, or nothing if it reported an error.
pub open spec fn spec_found_text(lookup: Result<String, mlua::Error>) -> Option<Seq<char>> {
    match lookup {
        Ok(text) => Some(text@),
        Err(_) => None,
    }
}

/// What a source is taken to define when the interpreter was asked for a
/// field as text: see [`spec_found_text`]. Why the interpreter could not give
/// the text is dropped; a field that is needed and absent is reported by
/// name.
pub fn found_text(lookup: Result<String, mlua::Error>) -> (found: Option<String>)
    ensures
        found.deep_view() == spec_found_text(lookup),
{
    match lookup {
        Ok(text) => Some(text),
        Err(_) => None,
    }
}

/// The global variable that holds a field, if the interpreter can give it as
/// text. The interpreter is asked for the variable named by [`Field::name`],
/// and [`found_text`] says what is made of its answer; what the answer is,
/// the script decides.
fn read_field(lua: &mlua::Lua, field: Field) -> Option<String> {
    found_text(global_text(lua, field.name()))
}

impl Config {
    /// Where the configuration script of the user lives:
    /// `<home>/.config/remo/config.lua`.
    pub open spec fn spec_path(home: Seq<char>) -> Seq<char> {
        home + "/.config/remo/config.lua"@
    }

    /// Where the configuration script of the user lives:
    /// `<home>/.config/remo/config.lua`.
    pub fn path(home: &str) -> (path: String)
        ensures
            path@ == Config::spec_path(home@),
    {
        let mut path = home.to_owned();
        path.append("/.config/remo/config.lua");
        path
    }

    /// The topology that a source describes: see [`SourceView::resolve`].
    pub fn resolve(source: Source) -> (loaded: Result<Config, ConfigError>)
        ensures
            loaded_view(loaded) == source@.resolve(),
            loaded matches Ok(config) ==> config@.wf(),
    {
        if source.direct_connection {
            match (source.target_host, source.username) {
                (None, _) => Err(ConfigError::Missing { field: Field::TargetHost }),
                (Some(_), None) => Err(ConfigError::Missing { field: Field::Username }),
                (Some(target_host), Some(username)) => Ok(Config::direct(target_host, username)),
            }
        } else {
            match (source.homelab_host, source.homelab_username, source.vps_host, source.vps_username) {
                (None, _, _, _) => Err(ConfigError::Missing { field: Field::HomelabHost }),
                (Some(_), None, _, _) => Err(ConfigError::Missing { field: Field::HomelabUsername }),
                (Some(_), Some(_), None, _) => Err(ConfigError::Missing { field: Field::VpsHost }),
                (Some(_), Some(_), Some(_), None) => Err(
                    ConfigError::Missing { field: Field::VpsUsername },
                ),
                (Some(target_host), Some(username), Some(vps_host), Some(vps_username)) => Ok(
                    Config::relayed(target_host, username, vps_host, vps_username),
                ),
            }
        }
    }

    /// Evaluates a configuration script and resolves the topology from the
    /// global variables that it leaves behind.
    ///
    /// The script runs in a fresh Lua interpreter. If it cannot be run to its
    /// end, or the flag `direct_connection` cannot be read, the configuration
    /// is unreadable. Otherwise the flag and the six text fields are read
    /// into a [`Source`] and resolved by [`Config::resolve`]. What the script
    /// computes is its own affair: the contract says what holds of every
    /// result.
    pub fn load(script: &str) -> (loaded: Result<Config, ConfigError>)
        ensures
            loaded matches Ok(config) ==> config@.wf(),
            loaded matches Err(ConfigError::Unreadable { .. }) || exists|source: SourceView|
                loaded_view(loaded) == #[trigger] source.resolve(),
    {
        let lua = mlua::Lua::new();
        match run_script(&lua, script) {
            Ok(()) => {},
            Err(error) => {
                return Err(ConfigError::Unreadable { reason: error_text(&error) });
            },
        }
        let direct_connection = match global_flag(&lua, "direct_connection") {
            Ok(flag) => flag,
            Err(error) => {
                return Err(ConfigError::Unreadable { reason: error_text(&error) });
            },
        };
        let source = Source {
            direct_connection,
            target_host: read_field(&lua, Field::TargetHost),
            username: read_field(&lua, Field::Username),
            homelab_host: read_field(&lua, Field::HomelabHost),
            homelab_username: read_field(&lua, Field::HomelabUsername),
            vps_host: read_field(&lua, Field::VpsHost),
            vps_username: read_field(&lua, Field::VpsUsername),
        };
        let loaded = Config::resolve(source);
        assert(loaded_view(loaded) == source@.resolve());
        loaded
    }

    /// A direct configuration.
    pub fn direct(target_host: String, username: String) -> (config: Config)
        ensures
            config@ == ConfigView::direct(target_host@, username@),
            config@.wf(),
    {
        Config { direct_connection: true, target_host, username, vps_host: None, vps_username: None }
    }

    /// A relayed configuration.
    pub fn relayed(
        target_host: String,
        username: String,
        vps_host: String,
        vps_username: String,
    ) -> (config: Config)
        ensures
            config@ == ConfigView::relayed(target_host@, username@, vps_host@, vps_username@),
            config@.wf(),
    {
        Config {
            direct_connection: false,
            target_host,
            username,
            vps_host: Some(vps_host),
            vps_username: Some(vps_username),
        }
    }
}

} // verus!
