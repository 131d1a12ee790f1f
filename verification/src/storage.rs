//! Where backups and their key metadata are kept.
//!
//! Each backup lies in the backup directory under the name the firewall gave
//! it. Its key metadata lies beside it, under the backup's name with `.key`
//! added, so that each backup has exactly one metadata file and each
//! metadata file one backup.

use crate::text::{chars_of, matches_at, occurs_at};
use vstd::prelude::*;
use vstd::string::*;

verus! {

/// The directory that holds the backups, as it is tested for and made.
pub open spec fn backup_directory_spec() -> Seq<char> {
    ".\\Backups\\"@
}

/// What stands before a backup's name in its path.
pub open spec fn backup_path_prefix() -> Seq<char> {
    "Backups\\"@
}

/// What is added to a backup's path to name its key metadata.
pub open spec fn metadata_suffix() -> Seq<char> {
    ".key"@
}

/// The ending by which a backup is known in a listing of the directory.
pub open spec fn backup_ending() -> Seq<char> {
    ".xml"@
}

/// The path of the backup with the given name.
pub open spec fn backup_path_spec(name: Seq<char>) -> Seq<char> {
    backup_path_prefix() + name
}

/// The path of the key metadata of the backup with the given name.
pub open spec fn metadata_path_spec(name: Seq<char>) -> Seq<char> {
    backup_path_spec(name) + metadata_suffix()
}

/// Whether a file name in the backup directory is that of a backup.
pub open spec fn is_backup_name_spec(name: Seq<char>) -> bool {
    occurs_at(name, backup_ending(), name.len() - backup_ending().len())
}

/// Two backups never share a path, nor a metadata path.
pub proof fn lemma_paths_are_one_to_one(first: Seq<char>, second: Seq<char>)
    ensures
        backup_path_spec(first) == backup_path_spec(second) ==> first == second,
        metadata_path_spec(first) == metadata_path_spec(second) ==> first == second,
{
    let prefix = backup_path_prefix().len() as int;
    if backup_path_spec(first) == backup_path_spec(second) {
        assert(first =~= backup_path_spec(first).subrange(
            prefix,
            backup_path_spec(first).len() as int,
        ));
        assert(second =~= backup_path_spec(second).subrange(
            prefix,
            backup_path_spec(second).len() as int,
        ));
    }
    if metadata_path_spec(first) == metadata_path_spec(second) {
        assert(metadata_path_spec(first).len() == metadata_path_spec(second).len());
        assert(first =~= metadata_path_spec(first).subrange(prefix, prefix + first.len()));
        assert(second =~= metadata_path_spec(second).subrange(prefix, prefix + second.len()));
    }
}

/// The key metadata of a backup is never listed as a backup.
pub proof fn lemma_metadata_is_no_backup(name: Seq<char>)
    ensures
        !is_backup_name_spec(name + metadata_suffix()),
{
    reveal_strlit(".key");
    reveal_strlit(".xml");
    let full = name + metadata_suffix();
    if is_backup_name_spec(full) {
        let tail = full.subrange(full.len() - 4, full.len() as int);
        assert(tail[1] == full[full.len() - 3]);
        assert(full[full.len() - 3] == metadata_suffix()[1]);
        assert(tail[1] == backup_ending()[1]);
    }
}

/// The directory that holds the backups.
pub fn backup_directory() -> (path: String)
    ensures
        path@ == backup_directory_spec(),
{
    String::from_str(".\\Backups\\")
}

/// The path of the backup with the given name.
pub fn backup_path(name: &str) -> (path: String)
    ensures
        path@ == backup_path_spec(name@),
{
    String::from_str("Backups\\").concat(name)
}

/// The path of the key metadata of the backup with the given name.
pub fn metadata_path(name: &str) -> (path: String)
    ensures
        path@ == metadata_path_spec(name@),
{
    backup_path(name).concat(".key")
}

/// Tells whether a file name in the backup directory is that of a backup:
/// whether it ends in `.xml`.
pub fn is_backup_name(name: &str) -> (listed: bool)
    ensures
        listed == is_backup_name_spec(name@),
{
    let chars = chars_of(name);
    let ending = chars_of(".xml");
    if chars.len() < ending.len() {
        return false;
    }
    matches_at(&chars, &ending, chars.len() - ending.len())
}

} // verus!
