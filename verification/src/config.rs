//! The settings of the key manager: where its home is, and which key type
//! `create` uses when none is given.

use vstd::prelude::*;
use crate::errors::{ErrorView, RskmError};
use crate::keys::key_types::{key_type_named, KeyTypes};
use crate::paths::{join, path_join};

verus! {

/// The key type used when the configuration names none.
const DEFAULT_KEY_TYPE: &'static str = "ed25519";

/// The name of the configuration file in the home directory.
const CONFIG_FILE_NAME: &'static str = "rskm.toml";

/// The name of the directory, in the home directory, that holds the keys.
const KEYS_DIR_NAME: &'static str = "keys";

/// The settings: the home directory (`RSKM_HOME`) and the default key type.
pub struct RskmSettings {
    rskm_home: String,
    default_key_type: String,
}

/// The settings as plain values.
pub struct SettingsView {
    pub home: Seq<char>,
    pub default_key_type: Seq<char>,
}

impl View for RskmSettings {
    type V = SettingsView;

    closed spec fn view(&self) -> SettingsView {
        SettingsView { home: self.rskm_home@, default_key_type: self.default_key_type@ }
    }
}

/// The directory that holds the keys.
pub open spec fn keys_dir_of(s: SettingsView) -> Seq<char> {
    path_join(s.home, "keys"@)
}

/// The configuration file.
pub open spec fn config_file_of(s: SettingsView) -> Seq<char> {
    path_join(s.home, "rskm.toml"@)
}

/// The home directory chosen from the value of `RSKM_HOME`, if it is set,
/// and else from the user's home directory, if there is one.
pub open spec fn chosen_home(env_home: Option<Seq<char>>, user_home: Option<Seq<char>>) -> Option<
    Seq<char>,
> {
    match env_home {
        Some(h) => Some(h),
        None => match user_home {
            Some(u) => Some(path_join(u, ".rskm"@)),
            None => None,
        },
    }
}

impl RskmSettings {
    /// Settings with home `rskm_home`, whose default key type is the one the
    /// configuration file gave (`stored_key_type`), or `ed25519` where there
    /// was no configuration file.
    pub fn new(rskm_home: String, stored_key_type: Option<String>) -> (r: RskmSettings)
        ensures
            r@.home == rskm_home@,
            r@.default_key_type == match stored_key_type {
                Some(t) => t@,
                None => "ed25519"@,
            },
    {
        let default_key_type = match stored_key_type {
            Some(t) => t,
            None => String::from_str(DEFAULT_KEY_TYPE),
        };
        RskmSettings { rskm_home, default_key_type }
    }

    /// The home directory: the value of `RSKM_HOME` where it is set
    /// (`env_home`), else `.rskm` in the user's home directory (`user_home`);
    /// with neither, `HomeDirectoryNotFound`.
    pub fn resolve_home(env_home: Option<String>, user_home: Option<String>) -> (r: Result<
        String,
        RskmError,
    >)
        ensures
            match chosen_home(
                match env_home {
                    Some(h) => Some(h@),
                    None => None,
                },
                match user_home {
                    Some(u) => Some(u@),
                    None => None,
                },
            ) {
                Some(h) => r matches Ok(p) && p@ == h,
                None => r matches Err(e) && e@ == ErrorView::HomeDirectoryNotFound,
            },
            env_home matches Some(h) ==> r matches Ok(p) && p@ == h@,
            env_home is None ==> (user_home matches Some(u) ==> r matches Ok(p) && p@ == path_join(
                u@,
                ".rskm"@,
            )),
            (env_home is None && user_home is None) ==> (r matches Err(e) && e@
                == ErrorView::HomeDirectoryNotFound),
    {
        match env_home {
            Some(h) => Ok(h),
            None => match user_home {
                Some(u) => Ok(join(u.as_str(), ".rskm")),
                None => Err(RskmError::HomeDirectoryNotFound),
            },
        }
    }

    /// The home directory.
    pub fn rskm_home(&self) -> (r: &str)
        ensures
            r@ == self@.home,
    {
        self.rskm_home.as_str()
    }

    /// The directory that holds the keys: `keys` in the home directory.
    pub fn keys_dir(&self) -> (r: String)
        ensures
            r@ == keys_dir_of(self@),
    {
        join(self.rskm_home.as_str(), KEYS_DIR_NAME)
    }

    /// The configuration file: `rskm.toml` in the home directory.
    pub fn config_file(&self) -> (r: String)
        ensures
            r@ == config_file_of(self@),
    {
        join(self.rskm_home.as_str(), CONFIG_FILE_NAME)
    }

    /// The key type that `create` uses when none is given.
    pub fn default_key_type(&self) -> (r: &str)
        ensures
            r@ == self@.default_key_type,
    {
        self.default_key_type.as_str()
    }

    /// Checks that the default key type names a key type.
    pub fn validate(&self) -> (r: Result<(), RskmError>)
        ensures
            match key_type_named(self@.default_key_type) {
                Some(_) => r is Ok,
                None => r matches Err(e) && e@ == ErrorView::UnknownKeyType(
                    self@.default_key_type,
                ),
            },
    {
        match KeyTypes::parse(self.default_key_type.as_str()) {
            Ok(_) => Ok(()),
            Err(e) => Err(e),
        }
    }

    /// Whether the home is initialized, given whether the home directory
    /// exists and whether the keys directory exists: both must.
    pub fn is_initialized(&self, home_exists: bool, keys_dir_exists: bool) -> (r: bool)
        ensures
            r == (home_exists && keys_dir_exists),
    {
        home_exists && keys_dir_exists
    }
}

impl Clone for RskmSettings {
    fn clone(&self) -> (r: RskmSettings)
        ensures
            r@ == self@,
    {
        RskmSettings { rskm_home: self.rskm_home.clone(), default_key_type: self.default_key_type.clone() }
    }
}

} // verus!
