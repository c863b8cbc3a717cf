//! The key types that a key can be created with, by their exact names.

use vstd::prelude::*;
use crate::errors::{ErrorView, RskmError};
use crate::text::str_eq;

verus! {

/// A key type that `ssh-keygen` is asked for.
#[derive(Debug, Clone, Copy, PartialEq, Eq, Structural)]
pub enum KeyTypes {
    Ed25519,
    Ecdsa,
    Xmss,
    Rsa,
}

/// The key type that the exact name `s` stands for, if any.
pub open spec fn key_type_named(s: Seq<char>) -> Option<KeyTypes> {
    if s == "ed25519"@ {
        Some(KeyTypes::Ed25519)
    } else if s == "ecdsa"@ {
        Some(KeyTypes::Ecdsa)
    } else if s == "xmss"@ {
        Some(KeyTypes::Xmss)
    } else if s == "rsa"@ {
        Some(KeyTypes::Rsa)
    } else {
        None
    }
}

impl KeyTypes {
    /// Reads a key type from its exact lower-case name; any other text is
    /// refused as `UnknownKeyType` with the text itself.
    pub fn parse(s: &str) -> (r: Result<KeyTypes, RskmError>)
        ensures
            match key_type_named(s@) {
                Some(k) => r == Ok::<KeyTypes, RskmError>(k),
                None => r matches Err(e) && e@ == ErrorView::UnknownKeyType(s@),
            },
    {
        if str_eq(s, "ed25519") {
            Ok(KeyTypes::Ed25519)
        } else if str_eq(s, "ecdsa") {
            Ok(KeyTypes::Ecdsa)
        } else if str_eq(s, "xmss") {
            Ok(KeyTypes::Xmss)
        } else if str_eq(s, "rsa") {
            Ok(KeyTypes::Rsa)
        } else {
            Err(RskmError::UnknownKeyType(String::from_str(s)))
        }
    }
}

impl std::str::FromStr for KeyTypes {
    type Err = RskmError;

    /// Reads a key type from its exact lower-case name, as `parse` does.
    fn from_str(s: &str) -> (r: Result<KeyTypes, RskmError>)
        ensures
            match key_type_named(s@) {
                Some(k) => r == Ok::<KeyTypes, RskmError>(k),
                None => r matches Err(e) && e@ == ErrorView::UnknownKeyType(s@),
            },
    {
        KeyTypes::parse(s)
    }
}

} // verus!
