//! Encrypted backups of a firewall's configuration.
//!
//! The heart of the crate is envelope encryption. A key-encryption key is
//! derived from the operator's passphrase and checked against a stored
//! verification record; each backup gets a fresh random data key, which is
//! handed out as lowercase hexadecimal text and stored beside the backup
//! wrapped under the key-encryption key ([`encryption`], on top of [`kdf`],
//! [`cipher`], [`random`], [`compare`] and [`hex`]).
//!
//! Around it stand the rules of the backup tool that need no input or
//! output of their own: how a schedule is written ([`schedule`]), what is
//! read out of the firewall's pages ([`scrape`]), what is sent to it and what
//! its answers mean ([`firewall`]), where backups are kept ([`storage`]) and
//! what the operator's commands are ([`shell`]).

pub mod cipher;
pub mod compare;
pub mod encryption;
pub mod error;
pub mod firewall;
pub mod hex;
pub mod kdf;
pub mod random;
pub mod schedule;
pub mod scrape;
pub mod shell;
pub mod storage;
pub mod text;
