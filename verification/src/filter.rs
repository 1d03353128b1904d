//! Traversal filtering: which directory entries, by name, are visited.
//! The walk itself belongs to the caller; these functions decide from the
//! entry's file name alone.

use vstd::prelude::*;

verus! {

/// A name is hidden when it starts with a dot. A name that is not valid
/// Unicode (`None`) is not treated as hidden, as the caller cannot read
/// its first character.
pub open spec fn spec_hidden(name: Option<&str>) -> bool {
    match name {
        Some(s) => s@.len() > 0 && s@[0] == '.',
        None => false,
    }
}

/// Whether an entry with this file name counts as hidden.
pub fn is_hidden(name: Option<&str>) -> (r: bool)
    ensures
        r == spec_hidden(name),
{
    match name {
        Some(s) => if s.unicode_len() > 0 {
            s.get_char(0) == '.'
        } else {
            false
        },
        None => false,
    }
}

/// Whether an entry with this file name is visited: hidden entries are
/// skipped unless the caller asked to see them.
pub fn filter_entries(name: Option<&str>, show_hidden: bool) -> (r: bool)
    ensures
        r == (show_hidden || !spec_hidden(name)),
{
    if !show_hidden && is_hidden(name) {
        return false;
    }
    true
}

} // verus!
