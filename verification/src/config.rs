//! Where the registry file is looked for.

use vstd::prelude::*;

verus! {

/// The directory of the registry file below the configuration directories.
pub const XDG_PREFIX: &'static str = "colorscheme";

/// The name of the registry file.
pub const CONFIG_FILE: &'static str = "colorscheme.json";

/// Whether `index` is the first place at which a file was found.
pub open spec fn first_found(found: Seq<bool>, index: int) -> bool {
    &&& 0 <= index < found.len()
    &&& found[index]
    &&& forall|j: int| 0 <= j < index ==> !found[j]
}

/// Picks the registry file among the places where it may lie, given for
/// each place, in the order of search, whether a file is there: the first
/// place with a file wins.
pub fn get_config_path(found: &Vec<bool>) -> (r: Option<usize>)
    ensures
        match r {
            Some(index) => first_found(found@, index as int),
            None => forall|j: int| 0 <= j < found@.len() ==> !found@[j],
        },
{
    let mut i: usize = 0;
    while i < found.len()
        invariant
            i <= found@.len(),
            forall|j: int| 0 <= j < i ==> !found@[j],
        decreases found.len() - i,
    {
        if found[i] {
            return Some(i);
        }
        i += 1;
    }
    None
}

} // verus!
