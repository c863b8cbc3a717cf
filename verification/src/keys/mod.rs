//! Key types: the strict names that configuration and `create` accept, and
//! the key-generation settings with their `ssh-keygen` arguments.

pub mod key_types;
pub mod keys;
