//! The default configuration directory: where the configuration lives when
//! nothing else was said.

use crate::text::{chars_of, text_of, text_view};
use vstd::prelude::*;

verus! {

/// Name of the product; the last component of the default configuration
/// directory.
pub const PRODUCT_NAME: &'static str = "transmission-daemon";

/// Name of the environment variable that names the configuration directory in
/// place of the platform's.
pub const CONFIG_HOME_VARIABLE: &'static str = "TRANSMISSION_HOME";

/// Name of the directory below the home directory that holds configuration
/// where the platform names no other.
pub const HOME_CONFIG_NAME: &'static str = ".config";

/// The path of the entry `name` in the directory `base`: the two parts with
/// one `/` between them, unless `base` is empty or ends in `/` already.
pub open spec fn joined(base: Seq<char>, name: Seq<char>) -> Seq<char> {
    if base.len() == 0 {
        name
    } else if base.last() == '/' {
        base + name
    } else {
        base.push('/') + name
    }
}

/// The default configuration directory, given what the environment and the
/// platform name: the directory of the environment as it stands; else the
/// product's directory in the platform's configuration directory; else the
/// product's directory in `.config` below the home directory; else none.
pub open spec fn config_dir_choice(
    config_home: Option<Seq<char>>,
    platform_config: Option<Seq<char>>,
    home: Option<Seq<char>>,
) -> Option<Seq<char>> {
    match config_home {
        Some(dir) => Some(dir),
        None => match platform_config {
            Some(dir) => Some(joined(dir, PRODUCT_NAME@)),
            None => match home {
                Some(dir) => Some(joined(joined(dir, HOME_CONFIG_NAME@), PRODUCT_NAME@)),
                None => None,
            },
        },
    }
}

/// The user's configuration directory as the platform names it.
///
/// Wraps `dirs::config_dir`, which reads the environment: nothing is claimed
/// of what comes back. A path that is not valid Unicode is kept with a
/// replacement character for each part that is none.
#[verifier::external_body]
fn platform_config_dir() -> (dir: Option<String>) {
    let path = dirs::config_dir()?;
    Some(path.to_string_lossy().into_owned())
}

/// The user's home directory as the platform names it.
///
/// Wraps `dirs::home_dir`, which reads the environment: nothing is claimed of
/// what comes back. A path that is not valid Unicode is kept with a
/// replacement character for each part that is none.
#[verifier::external_body]
fn platform_home_dir() -> (dir: Option<String>) {
    let path = dirs::home_dir()?;
    Some(path.to_string_lossy().into_owned())
}

/// Computes [`joined`].
pub fn join(base: &str, name: &str) -> (path: String)
    ensures
        path@ == joined(base@, name@),
{
    let mut chars = chars_of(base);
    let mut tail = chars_of(name);
    if chars.len() > 0 && chars[chars.len() - 1] != '/' {
        chars.push('/');
    }
    chars.append(&mut tail);
    text_of(&chars)
}

/// Computes [`config_dir_choice`] from what the environment and the platform
/// name.
pub fn choose_config_dir(
    config_home: Option<String>,
    platform_config: Option<String>,
    home: Option<String>,
) -> (dir: Option<String>)
    ensures
        text_view(dir) == config_dir_choice(
            text_view(config_home),
            text_view(platform_config),
            text_view(home),
        ),
        config_home is Some ==> dir == config_home,
{
    match config_home {
        Some(dir) => Some(dir),
        None => match platform_config {
            Some(dir) => Some(join(dir.as_str(), PRODUCT_NAME)),
            None => match home {
                Some(dir) => {
                    let config = join(dir.as_str(), HOME_CONFIG_NAME);
                    Some(join(config.as_str(), PRODUCT_NAME))
                },
                None => None,
            },
        },
    }
}

/// The default configuration directory on this machine.
///
/// `config_home` is what the variable [`CONFIG_HOME_VARIABLE`] holds, if it is
/// set: it is used as it stands. Without it the platform is asked, and the
/// result is [`config_dir_choice`] of whatever it names; it names the home
/// directory only where it names no configuration directory.
pub fn resolve_config_dir(config_home: Option<String>) -> (dir: Option<String>)
    ensures
        config_home is Some ==> dir == config_home,
        config_home is None ==> exists|platform_config: Option<Seq<char>>, home: Option<Seq<char>>|
            text_view(dir) == #[trigger] config_dir_choice(None, platform_config, home),
{
    if config_home.is_some() {
        return config_home;
    }
    let platform_config = platform_config_dir();
    let home = if platform_config.is_none() {
        platform_home_dir()
    } else {
        None
    };
    let dir = choose_config_dir(None, platform_config, home);
    assert(text_view(dir) == config_dir_choice(None, text_view(platform_config), text_view(home)));
    dir
}

} // verus!
