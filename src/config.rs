//! Configuration management: where the configuration lives, how command
//! line and environment values override it, and which keys are deprecated.
//! Reading and writing the file is left to the program around the library.

use vstd::prelude::*;
use vstd::string::*;
use crate::models::{ConfigSchema, LogLevel, SafetyLevel, ShellType, pair_views};
use crate::text::{lower_of, opt_view, parse_u64, u64_parsed};

pub use crate::models::{UserConfiguration, UserConfigurationBuilder};

verus! {

#[verifier::external_type_specification]
#[verifier::external_body]
pub struct ExTomlValue(toml::Value);

/// Configuration-related errors.
#[derive(Debug, Clone, PartialEq, Eq)]
pub enum ConfigError {
    IoError(String),
    ParseError(String),
    SerializeError(String),
    ValidationError(String),
    DirectoryError(String),
    DeprecatedKey { old_key: String, new_key: String },
}

/// Relies on `dirs::config_dir`: the user's configuration directory, if the
/// platform and environment give one.
#[verifier::external_body]
fn user_config_dir() -> (r: Option<String>) {
    match dirs::config_dir() {
        Some(p) => Some(p.to_string_lossy().into_owned()),
        None => None,
    }
}

/// Schema validator for configuration files.
#[derive(Debug)]
pub struct SchemaValidator;

impl SchemaValidator {
    /// Validate a parsed configuration file against the schema. Value
    /// ranges are checked by [`UserConfiguration::validate`] once the file
    /// is read, so nothing is refused here.
    pub fn validate(schema: &ConfigSchema, value: &toml::Value) -> (r: Result<(), String>)
        ensures
            r is Ok,
    {
        Ok(())
    }
}

/// Manages user configuration.
#[derive(Debug)]
pub struct ConfigManager {
    config_path: String,
    schema: ConfigSchema,
}

/// `config` with the safety level, shell and log level that are given
/// replaced by the levels they name.
pub open spec fn merged(
    config: UserConfiguration,
    safety: Option<Seq<char>>,
    shell: Option<Seq<char>>,
    log_level: Option<Seq<char>>,
) -> UserConfiguration {
    UserConfiguration {
        safety_level: match safety {
            Some(s) => SafetyLevel::spec_named(lower_of(s)).unwrap(),
            None => config.safety_level,
        },
        default_shell: match shell {
            Some(s) => Some(ShellType::spec_named(lower_of(s))),
            None => config.default_shell,
        },
        log_level: match log_level {
            Some(s) => LogLevel::spec_named(lower_of(s)).unwrap(),
            None => config.log_level,
        },
        ..config
    }
}

/// Every given level name is recognised.
pub open spec fn names_valid(safety: Option<Seq<char>>, log_level: Option<Seq<char>>) -> bool {
    (safety matches Some(s) ==> SafetyLevel::spec_named(lower_of(s)) is Some) && (
    log_level matches Some(s) ==> LogLevel::spec_named(lower_of(s)) is Some)
}

impl ConfigManager {
    /// Path of the configuration file.
    pub closed spec fn spec_path(&self) -> Seq<char> {
        self.config_path@
    }

    /// The schema the configuration is checked against.
    pub closed spec fn spec_schema(&self) -> ConfigSchema {
        self.schema
    }

    /// A manager for `config.toml` in the `cmdai` directory of the user's
    /// configuration directory.
    pub fn new() -> (r: Result<ConfigManager, ConfigError>)
        ensures
            r matches Err(e) ==> (e matches ConfigError::DirectoryError(m) && m@
                == "Could not determine config directory"@),
            r matches Ok(m) ==> exists|dir: Seq<char>| m.spec_path() == dir + "/cmdai/config.toml"@,
            r matches Ok(m) ==> pair_views(m.spec_schema().known_keys@) == ConfigSchema::spec_keys(),
    {
        match user_config_dir() {
            None => Err(ConfigError::DirectoryError("Could not determine config directory".to_owned())),
            Some(dir) => {
                let ghost d = dir@;
                let mut path = dir;
                path.append("/cmdai/config.toml");
                Ok(ConfigManager { config_path: path, schema: ConfigSchema::new() })
            },
        }
    }

    /// A manager for the configuration file at `config_path`.
    pub fn with_config_path(config_path: &str) -> (r: Result<ConfigManager, ConfigError>)
        ensures
            r matches Ok(m) && m.spec_path() == config_path@ && pair_views(
                m.spec_schema().known_keys@,
            ) == ConfigSchema::spec_keys(),
    {
        Ok(ConfigManager { config_path: config_path.to_owned(), schema: ConfigSchema::new() })
    }

    /// Get the config file path.
    pub fn config_path(&self) -> (r: &str)
        ensures
            r@ == self.spec_path(),
    {
        self.config_path.as_str()
    }

    /// Get config path as string.
    pub fn config_path_string(&self) -> (r: String)
        ensures
            r@ == self.spec_path(),
    {
        self.config_path.clone()
    }

    /// Merge command line values into `config`, the file's configuration
    /// (the command line takes precedence). Fails with the parse error of
    /// the first unrecognised level name, safety before log level.
    pub fn merge_with_cli(
        &self,
        config: UserConfiguration,
        cli_safety: Option<&str>,
        cli_shell: Option<&str>,
        cli_log_level: Option<&str>,
    ) -> (r: Result<UserConfiguration, ConfigError>)
        ensures
            r is Ok <==> names_valid(opt_view(cli_safety), opt_view(cli_log_level)),
            r matches Ok(c) ==> c == merged(
                config,
                opt_view(cli_safety),
                opt_view(cli_shell),
                opt_view(cli_log_level),
            ),
            r matches Err(e) ==> e is ValidationError,
    {
        let mut config = config;
        if let Some(s) = cli_safety {
            match SafetyLevel::parse(s) {
                Ok(level) => {
                    config.safety_level = level;
                },
                Err(m) => {
                    return Err(ConfigError::ValidationError(m));
                },
            }
        }
        if let Some(s) = cli_shell {
            config.default_shell = Some(ShellType::parse(s));
        }
        if let Some(s) = cli_log_level {
            match LogLevel::parse(s) {
                Ok(level) => {
                    config.log_level = level;
                },
                Err(m) => {
                    return Err(ConfigError::ValidationError(m));
                },
            }
        }
        Ok(config)
    }

    /// Merge environment values into `config`, the file's configuration
    /// (the environment takes precedence): the three levels as on the
    /// command line, then the default model, then the cache size, which
    /// must be a number.
    pub fn merge_with_env(
        &self,
        config: UserConfiguration,
        env_safety: Option<&str>,
        env_shell: Option<&str>,
        env_log_level: Option<&str>,
        env_model: Option<&str>,
        env_cache_size: Option<&str>,
    ) -> (r: Result<UserConfiguration, ConfigError>)
        ensures
            r is Ok <==> names_valid(opt_view(env_safety), opt_view(env_log_level)) && (
            env_cache_size matches Some(c) ==> u64_parsed(c@) is Some),
            r matches Ok(c) ==> c.safety_level == merged(
                config,
                opt_view(env_safety),
                opt_view(env_shell),
                opt_view(env_log_level),
            ).safety_level && c.default_shell == merged(
                config,
                opt_view(env_safety),
                opt_view(env_shell),
                opt_view(env_log_level),
            ).default_shell && c.log_level == merged(
                config,
                opt_view(env_safety),
                opt_view(env_shell),
                opt_view(env_log_level),
            ).log_level && c.log_rotation_days == config.log_rotation_days,
            r matches Ok(c) ==> (match env_model {
                Some(m) => c.default_model matches Some(cm) && cm@ == m@,
                None => c.default_model == config.default_model,
            }),
            r matches Ok(c) ==> (match env_cache_size {
                Some(s) => Some(c.cache_max_size_gb) == u64_parsed(s@),
                None => c.cache_max_size_gb == config.cache_max_size_gb,
            }),
            r matches Err(e) ==> e is ValidationError,
            r matches Err(ConfigError::ValidationError(m)) ==> (names_valid(
                opt_view(env_safety),
                opt_view(env_log_level),
            ) ==> (env_cache_size matches Some(c) && m@ == "Invalid cache size: "@ + c@)),
    {
        let mut config = match self.merge_with_cli(config, env_safety, env_shell, env_log_level) {
            Ok(c) => c,
            Err(e) => {
                return Err(e);
            },
        };
        if let Some(m) = env_model {
            config.default_model = Some(m.to_owned());
        }
        if let Some(c) = env_cache_size {
            match parse_u64(c) {
                Some(n) => {
                    config.cache_max_size_gb = n;
                },
                None => {
                    let mut msg = String::new();
                    msg.append("Invalid cache size: ");
                    msg.append(c);
                    return Err(ConfigError::ValidationError(msg));
                },
            }
        }
        Ok(config)
    }

    /// Warnings for the deprecated keys among the `(section, key)` pairs
    /// of a configuration file, in order.
    pub fn schema_warnings(&self, keys: &Vec<(String, String)>) -> (r: Vec<String>)
        ensures
            crate::text::views(r@) == deprecation_warnings(
                pair_views(self.spec_schema().deprecated_keys@),
                pair_views(keys@),
            ),
    {
        let mut out: Vec<String> = Vec::new();
        let mut i: usize = 0;
        while i < keys.len()
            invariant
                i <= keys@.len(),
                crate::text::views(out@) == deprecation_warnings(
                    pair_views(self.spec_schema().deprecated_keys@),
                    pair_views(keys@).take(i as int),
                ),
            decreases keys@.len() - i,
        {
            proof {
                assert(pair_views(keys@).take(i + 1).drop_last() =~= pair_views(keys@).take(i as int));
            }
            let mut full = keys[i].0.clone();
            full.append(".");
            full.append(keys[i].1.as_str());
            let found = lookup(&self.schema.deprecated_keys, &full);
            if let Some(new_key) = found {
                let mut w = String::new();
                w.append("Deprecated key '");
                w.append(full.as_str());
                w.append("' (use '");
                w.append(new_key.as_str());
                w.append("' instead)");
                let ghost o0 = out@;
                out.push(w);
                assert(crate::text::views(out@) =~= crate::text::views(o0).push(w@));
            }
            i = i + 1;
        }
        assert(pair_views(keys@).take(keys@.len() as int) =~= pair_views(keys@));
        out
    }
}

/// The value paired with the first occurrence of `key` in `pairs`.
pub open spec fn lookup_spec(pairs: Seq<(Seq<char>, Seq<char>)>, key: Seq<char>) -> Option<Seq<char>>
    decreases pairs.len(),
{
    if pairs.len() == 0 {
        None
    } else if pairs[0].0 == key {
        Some(pairs[0].1)
    } else {
        lookup_spec(pairs.drop_first(), key)
    }
}

/// The warning for each `(section, key)` pair whose dotted name is deprecated.
pub open spec fn deprecation_warnings(
    deprecated: Seq<(Seq<char>, Seq<char>)>,
    keys: Seq<(Seq<char>, Seq<char>)>,
) -> Seq<Seq<char>>
    decreases keys.len(),
{
    if keys.len() == 0 {
        Seq::empty()
    } else {
        let prev = deprecation_warnings(deprecated, keys.drop_last());
        let full = keys.last().0 + "."@ + keys.last().1;
        match lookup_spec(deprecated, full) {
            Some(new_key) => prev.push(
                "Deprecated key '"@ + full + "' (use '"@ + new_key + "' instead)"@,
            ),
            None => prev,
        }
    }
}

/// The value paired with the first occurrence of `key`.
fn lookup(pairs: &Vec<(String, String)>, key: &String) -> (r: Option<String>)
    ensures
        opt_string_view(r) == lookup_spec(pair_views(pairs@), key@),
{
    let mut i: usize = 0;
    assert(pair_views(pairs@).skip(0) =~= pair_views(pairs@));
    while i < pairs.len()
        invariant
            i <= pairs@.len(),
            lookup_spec(pair_views(pairs@), key@) == lookup_spec(
                pair_views(pairs@).skip(i as int),
                key@,
            ),
        decreases pairs@.len() - i,
    {
        let ghost rest = pair_views(pairs@).skip(i as int);
        assert(rest.drop_first() =~= pair_views(pairs@).skip(i + 1));
        if pairs[i].0 == *key {
            return Some(pairs[i].1.clone());
        }
        i = i + 1;
    }
    None
}

/// The view of an optional string.
pub open spec fn opt_string_view(v: Option<String>) -> Option<Seq<char>> {
    match v {
        Some(s) => Some(s@),
        None => None,
    }
}

} // verus!
