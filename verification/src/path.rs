//! Names of files in the storage root.

use crate::error::VeriflowError;
use vstd::prelude::*;

verus! {

/// Whether `name` names a file directly inside the storage root: it holds no
/// path separator and does not begin with two dots.
pub open spec fn is_safe_name(name: Seq<char>) -> bool {
    &&& forall|i: int| 0 <= i < name.len() ==> name[i] != '/' && name[i] != '\\'
    &&& !(name.len() >= 2 && name[0] == '.' && name[1] == '.')
}

/// Accepts a name that stays inside the storage root, and rejects any other
/// as an invalid path.
pub fn validate_name(name: &str) -> (result: Result<(), VeriflowError>)
    ensures
        is_safe_name(name@) ==> result is Ok,
        !is_safe_name(name@) ==> result == Err::<(), VeriflowError>(VeriflowError::InvalidPath),
{
    let mut separators = false;
    let mut seen: u8 = 0;
    let mut dots: u8 = 0;
    for c in it: name.chars()
        invariant
            it.seq() == name@,
            seen == if it.index() < 2 {
                it.index()
            } else {
                2
            },
            dots <= seen,
            dots >= 1 <==> seen >= 1 && name@[0] == '.',
            dots >= 2 <==> seen >= 2 && name@[0] == '.' && name@[1] == '.',
            !separators <==> forall|i: int|
                0 <= i < it.index() ==> name@[i] != '/' && name@[i] != '\\',
    {
        if c == '/' || c == '\\' {
            separators = true;
        }
        if seen < 2 {
            if c == '.' && dots == seen {
                dots = dots + 1;
            }
            seen = seen + 1;
        }
    }
    if separators || dots == 2 {
        Err(VeriflowError::InvalidPath)
    } else {
        Ok(())
    }
}

} // verus!
