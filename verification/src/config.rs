use vstd::prelude::*;
use vstd::string::StringSliceAdditionalSpecFns;

use crate::paths::{join_path, path_join, PathError};

verus! {

/// The user's settings: one natural-scrolling toggle per device, and whether
/// the app starts at login.
#[derive(Debug, Clone, Copy, PartialEq, Eq, Structural)]
pub struct Config {
    pub trackpad_natural: bool,
    pub mouse_natural: bool,
    pub login_at_start: bool,
}

/// The settings used when none were saved: natural scrolling on the trackpad,
/// traditional scrolling on the mouse, no start at login.
pub open spec fn default_config() -> Config {
    Config { trackpad_natural: true, mouse_natural: false, login_at_start: false }
}

impl Default for Config {
    fn default() -> (r: Self)
        ensures
            r == default_config(),
            r.trackpad_natural,
            !r.mouse_natural,
            !r.login_at_start,
    {
        Config { trackpad_natural: true, mouse_natural: false, login_at_start: false }
    }
}

impl Config {
    /// The settings in force after an attempt to read the saved ones:
    /// what was read when it could be read and parsed, the defaults otherwise.
    pub fn from_saved(saved: Option<Config>) -> (r: Config)
        ensures
            r == match saved {
                Some(c) => c,
                None => default_config(),
            },
            saved matches Some(c) ==> r == c,
            saved is None ==> r.trackpad_natural && !r.mouse_natural && !r.login_at_start,
    {
        match saved {
            Some(c) => c,
            None => Config::default(),
        }
    }
}

/// Name of the application's directory inside the configuration directory.
pub const APP_DIR_NAME: &'static str = "macuse";

/// Name of the settings file inside the application's directory.
pub const CONFIG_FILE_NAME: &'static str = "config.json";

/// The application's directory under the per-user configuration directory `base`.
pub open spec fn config_dir_under(base: Seq<u8>) -> Seq<u8> {
    path_join(base, APP_DIR_NAME.spec_bytes())
}

/// The settings file under the per-user configuration directory `base`.
pub open spec fn config_path_under(base: Seq<u8>) -> Seq<u8> {
    path_join(config_dir_under(base), CONFIG_FILE_NAME.spec_bytes())
}

/// The settings live inside the configuration directory, whatever it is:
/// the application's directory is the base, a separator where one is missing,
/// and `macuse`; the settings file is that and `/config.json`.
pub proof fn lemma_config_paths_under_base(base: Seq<u8>)
    ensures
        config_dir_under(base) == (if base.len() == 0 || base.last() == 47u8 {
            base
        } else {
            base.push(47u8)
        }) + "macuse".spec_bytes(),
        config_path_under(base) == (if base.len() == 0 || base.last() == 47u8 {
            base
        } else {
            base.push(47u8)
        }) + "macuse/config.json".spec_bytes(),
        config_path_under(base).subrange(0, base.len() as int) == base,
{
    broadcast use vstd::string::group_string_axioms;

    reveal_strlit("macuse");
    reveal_strlit("config.json");
    reveal_strlit("macuse/config.json");
    let app = APP_DIR_NAME.spec_bytes();
    let file = CONFIG_FILE_NAME.spec_bytes();
    let whole = "macuse/config.json";
    assert(vstd::string::is_ascii(APP_DIR_NAME));
    assert(vstd::string::is_ascii(CONFIG_FILE_NAME));
    assert(vstd::string::is_ascii(whole));
    assert(app[0] == 109u8);
    assert(app.last() == 101u8);
    assert(file[0] == 99u8);
    assert(whole.spec_bytes() =~= app + seq![47u8] + file);
    let prefix = if base.len() == 0 || base.last() == 47u8 {
        base
    } else {
        base.push(47u8)
    };
    assert(config_dir_under(base) =~= prefix + app);
    assert((prefix + app).last() == 101u8);
    assert(config_path_under(base) =~= prefix + whole.spec_bytes());
    assert(config_path_under(base).subrange(0, base.len() as int) =~= base);
}

/// `dirs::config_dir`, with the path as its raw bytes.
/// It reads the environment, so nothing is stated of what it returns.
#[verifier::external_body]
fn platform_config_dir() -> (r: Option<Vec<u8>>) {
    match dirs::config_dir() {
        Some(p) => Some(p.into_os_string().into_encoded_bytes()),
        None => None,
    }
}

/// The application's directory, given what the platform reported as the
/// per-user configuration directory.
pub fn config_dir_in(base: Option<Vec<u8>>) -> (r: Result<Vec<u8>, PathError>)
    ensures
        match base {
            Some(b) => r matches Ok(p) && p@ == config_dir_under(b@) && p@ == (if b@.len() == 0 || b@.last() == 47u8 {
                b@
            } else {
                b@.push(47u8)
            }) + "macuse".spec_bytes(),
            None => r == Err::<Vec<u8>, PathError>(PathError::NoConfigDir),
        },
{
    proof {
        if let Some(b) = &base {
            lemma_config_paths_under_base(b@);
        }
    }
    match base {
        Some(b) => Ok(join_path(b.as_slice(), APP_DIR_NAME.as_bytes())),
        None => Err(PathError::NoConfigDir),
    }
}

/// The settings file, given what the platform reported as the per-user
/// configuration directory.
pub fn config_path_in(base: Option<Vec<u8>>) -> (r: Result<Vec<u8>, PathError>)
    ensures
        match base {
            Some(b) => r matches Ok(p) && p@ == config_path_under(b@) && p@ == (if b@.len() == 0 || b@.last() == 47u8 {
                b@
            } else {
                b@.push(47u8)
            }) + "macuse/config.json".spec_bytes(),
            None => r == Err::<Vec<u8>, PathError>(PathError::NoConfigDir),
        },
{
    proof {
        if let Some(b) = &base {
            lemma_config_paths_under_base(b@);
        }
    }
    let dir = config_dir_in(base)?;
    Ok(join_path(dir.as_slice(), CONFIG_FILE_NAME.as_bytes()))
}

/// The application's directory under this user's configuration directory.
pub fn config_dir() -> (r: Result<Vec<u8>, PathError>)
    ensures
        match r {
            Ok(p) => exists|b: Seq<u8>|
                p@ == config_dir_under(b) && p@ == (if b.len() == 0 || b.last() == 47u8 {
                b
            } else {
                b.push(47u8)
            }) + "macuse".spec_bytes(),
            Err(e) => e == PathError::NoConfigDir,
        },
{
    config_dir_in(platform_config_dir())
}

/// The settings file under this user's configuration directory.
pub fn config_path() -> (r: Result<Vec<u8>, PathError>)
    ensures
        match r {
            Ok(p) => exists|b: Seq<u8>|
                p@ == config_path_under(b) && p@ == (if b.len() == 0 || b.last() == 47u8 {
                b
            } else {
                b.push(47u8)
            }) + "macuse/config.json".spec_bytes(),
            Err(e) => e == PathError::NoConfigDir,
        },
{
    config_path_in(platform_config_dir())
}

} // verus!
