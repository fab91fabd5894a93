use vstd::prelude::*;
use vstd::string::StringExecFns;

verus! {

/// Why a run aborted before any project was processed.
#[derive(PartialEq, Eq, Structural, Clone, Copy, Debug)]
pub enum ConfigError {
    /// No explicit path was given and no default location could be resolved.
    NoConfigFile,
    /// The configuration file could not be read.
    Unreadable,
    /// The configuration file's contents could not be decoded.
    Malformed,
}

/// The default configuration file location under a user's home directory.
pub open spec fn default_config_path(home: Seq<char>) -> Seq<char> {
    home + "/.config/.surveyor.toml"@
}

/// Append the default configuration file location to a home directory.
pub fn default_config_file(home: &str) -> (r: String)
    ensures
        r@ == default_config_path(home@),
{
    let mut m = home.to_owned();
    m.append("/.config/.surveyor.toml");
    m
}

/// Relies on home::home_dir: the invoking user's home directory as the
/// platform reports it, if any, kept only when it is valid unicode. The
/// result depends on the environment, so nothing is assumed of its value.
#[verifier::external_body]
fn home_dir_string() -> (r: Option<String>) {
    home::home_dir().and_then(|p| p.to_str().map(|s| s.to_owned()))
}

/// Resolve the configuration file path: the explicit path when one was
/// given, otherwise the default location under the user's home directory,
/// and a distinct error when neither resolves.
pub fn determine_config_path(explicit: Option<String>) -> (r: Result<String, ConfigError>)
    ensures
        explicit matches Some(p) ==> r matches Ok(q) && q@ == p@,
        explicit is None ==> (r matches Ok(q) ==> exists|h: Seq<char>| q@ == default_config_path(
            h,
        )),
        explicit is None && r is Err ==> r == Err::<String, ConfigError>(ConfigError::NoConfigFile),
{
    match explicit {
        Some(p) => Ok(p),
        None => match home_dir_string() {
            Some(h) => {
                let q = default_config_file(h.as_str());
                proof {
                    assert(q@ == default_config_path(h@));
                }
                Ok(q)
            },
            None => Err(ConfigError::NoConfigFile),
        },
    }
}

} // verus!
