//! Key types read without regard to case, with the `ssh-keygen` arguments
//! that each one is generated with, and the settings of a key generation.

use vstd::prelude::*;
use crate::paths::{join, path_join};
use crate::text::{str_eq, str_to_uppercase, to_uppercase};

verus! {

/// A key type, with the `ssh-keygen` arguments that generate it.
#[derive(Debug, Clone, Copy, PartialEq, Eq, Structural)]
pub enum KeyTypes {
    ED25519,
    ECDSA,
    XMSS,
    RSA,
}

/// The key type that an upper-case name stands for, if any.
pub open spec fn upper_key_type(upper: Seq<char>) -> Option<KeyTypes> {
    if upper == "ED25519"@ {
        Some(KeyTypes::ED25519)
    } else if upper == "ECDSA"@ {
        Some(KeyTypes::ECDSA)
    } else if upper == "XMSS"@ {
        Some(KeyTypes::XMSS)
    } else if upper == "RSA"@ {
        Some(KeyTypes::RSA)
    } else {
        None
    }
}

/// The message with which a name that is no key type is refused.
pub open spec fn unknown_key_type_message(s: Seq<char>) -> Seq<char> {
    "Unknown key type: "@ + s
}

/// The arguments that select a key type for `ssh-keygen`.
pub open spec fn keygen_args(k: KeyTypes) -> Seq<Seq<char>> {
    match k {
        KeyTypes::ED25519 => seq!["-t"@, "ed25519"@],
        KeyTypes::ECDSA => seq!["-t"@, "ecdsa"@, "-b"@, "521"@],
        KeyTypes::XMSS => seq!["-t"@, "xmss"@],
        KeyTypes::RSA => seq!["-t"@, "rsa"@, "-b"@, "4096"@],
    }
}

impl KeyTypes {
    /// Reads a key type from `upper`, the upper-case form of `name`; a
    /// name that is no key type is refused with a message that quotes
    /// `name`.
    pub fn from_uppercase(upper: &str, name: &str) -> (r: Result<KeyTypes, String>)
        ensures
            match upper_key_type(upper@) {
                Some(k) => r == Ok::<KeyTypes, String>(k),
                None => r matches Err(m) && m@ == unknown_key_type_message(name@),
            },
    {
        if str_eq(upper, "ED25519") {
            Ok(KeyTypes::ED25519)
        } else if str_eq(upper, "ECDSA") {
            Ok(KeyTypes::ECDSA)
        } else if str_eq(upper, "XMSS") {
            Ok(KeyTypes::XMSS)
        } else if str_eq(upper, "RSA") {
            Ok(KeyTypes::RSA)
        } else {
            let mut m = String::from_str("Unknown key type: ");
            m.append(name);
            Err(m)
        }
    }

    /// Reads a key type from its name in any case: the name is brought to
    /// upper case by `str::to_uppercase` and then matched exactly.
    pub fn parse(s: &str) -> (r: Result<KeyTypes, String>)
        ensures
            match upper_key_type(str_to_uppercase(s@)) {
                Some(k) => r == Ok::<KeyTypes, String>(k),
                None => r matches Err(m) && m@ == unknown_key_type_message(s@),
            },
    {
        let upper = to_uppercase(s);
        KeyTypes::from_uppercase(upper.as_str(), s)
    }

    /// The arguments that select this key type for `ssh-keygen`.
    pub fn ssh_keygen_args(&self) -> (r: Vec<&'static str>)
        ensures
            r@.map_values(|a: &str| a@) == keygen_args(*self),
    {
        let r = match self {
            KeyTypes::ED25519 => vec!["-t", "ed25519"],
            KeyTypes::ECDSA => vec!["-t", "ecdsa", "-b", "521"],
            KeyTypes::XMSS => vec!["-t", "xmss"],
            KeyTypes::RSA => vec!["-t", "rsa", "-b", "4096"],
        };
        assert(r@.map_values(|a: &str| a@) =~= keygen_args(*self));
        r
    }
}

impl std::str::FromStr for KeyTypes {
    type Err = String;

    /// Reads a key type from its name in any case, as `parse` does.
    fn from_str(s: &str) -> (r: Result<KeyTypes, String>)
        ensures
            match upper_key_type(str_to_uppercase(s@)) {
                Some(k) => r == Ok::<KeyTypes, String>(k),
                None => r matches Err(m) && m@ == unknown_key_type_message(s@),
            },
    {
        KeyTypes::parse(s)
    }
}

/// What a key is generated with: its type, whether it goes without a
/// passphrase, and the directory it is written to.
pub struct KeyGenSettings {
    key_type: KeyTypes,
    no_passphrase: bool,
    output_dir: String,
}

/// The settings of a key generation as plain values.
pub struct KeyGenSettingsView {
    pub key_type: KeyTypes,
    pub no_passphrase: bool,
    pub output_dir: Seq<char>,
}

impl View for KeyGenSettings {
    type V = KeyGenSettingsView;

    closed spec fn view(&self) -> KeyGenSettingsView {
        KeyGenSettingsView {
            key_type: self.key_type,
            no_passphrase: self.no_passphrase,
            output_dir: self.output_dir@,
        }
    }
}

impl KeyGenSettings {
    /// The default settings for a user whose home directory is `home`: an
    /// Ed25519 key without a passphrase, written to `.rskm` under `home`.
    pub fn with_home_dir(home: &str) -> (r: KeyGenSettings)
        ensures
            r@.key_type == KeyTypes::ED25519,
            r@.no_passphrase,
            r@.output_dir == path_join(home@, ".rskm"@),
    {
        KeyGenSettings { key_type: KeyTypes::ED25519, no_passphrase: true, output_dir: join(home, ".rskm") }
    }

    /// The key type to generate.
    pub fn key_type(&self) -> (r: KeyTypes)
        ensures
            r == self@.key_type,
    {
        self.key_type
    }

    /// Whether the key goes without a passphrase.
    pub fn no_passphrase(&self) -> (r: bool)
        ensures
            r == self@.no_passphrase,
    {
        self.no_passphrase
    }

    /// The directory the key is written to.
    pub fn output_dir(&self) -> (r: &str)
        ensures
            r@ == self@.output_dir,
    {
        self.output_dir.as_str()
    }
}

} // verus!
