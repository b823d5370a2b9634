//! Finding a hook on a search path.

use vstd::prelude::*;
use vstd::string::*;

verus! {

/// A hook's name is a file name: it is not empty and holds no path separator,
/// so that the hook can only be found through the search path.
pub open spec fn is_hook_name(name: Seq<char>) -> bool {
    name.len() > 0 && forall|i: int| 0 <= i < name.len() ==> name[i] != '/'
}

/// Whether `name` can be the name of a hook.
pub fn valid_hook_name(name: &str) -> (valid: bool)
    ensures
        valid == is_hook_name(name@),
{
    let len = name.unicode_len();
    if len == 0 {
        return false;
    }
    let mut i: usize = 0;
    while i < len
        invariant
            i <= len,
            len == name@.len(),
            forall|j: int| 0 <= j < i ==> name@[j] != '/',
        decreases len - i,
    {
        if name.get_char(i) == '/' {
            return false;
        }
        i = i + 1;
    }
    true
}

/// The first executable named `name` in the directories of `search_path`, as
/// `which::which_in_global` finds it with `search_path` as its list of paths.
///
/// The answer depends on what is on disk when the call is made, so nothing is
/// claimed of it: a file may come or go between two calls.
#[verifier::external_body]
fn first_on_path(name: &str, search_path: &str) -> (hit: Option<String>) {
    match which::which_in_global(name, Some(search_path)) {
        Ok(mut hits) => hits.next().map(|path| path.to_string_lossy().into_owned()),
        Err(_) => None,
    }
}

/// Looks for the hook `name` on `search_path` and gives the path of the first
/// executable of that name. A name that is no file name is never found.
pub fn locate(name: &str, search_path: &str) -> (hit: Option<String>)
    ensures
        !is_hook_name(name@) ==> hit is None,
{
    // What the search of the path gives depends on the disk. It is one value
    // among all that the disk allows, and the answer for each of them is that
    // of `accept_hit`.
    let on_path = first_on_path(name, search_path);
    accept_hit(name, on_path)
}

/// Whether the hook `name` is installed: an executable of that name is in one
/// of the directories of `search_path`. A name that is no file name is never
/// installed.
pub fn hook_exists(name: &str, search_path: &str) -> (found: bool)
    ensures
        !is_hook_name(name@) ==> !found,
{
    locate(name, search_path).is_some()
}

/// The locator's answer for the hook `name`, where the search of the path
/// gave `on_path`. For a file name the answer is what the search gave. Any
/// other name is never found, whatever the search gave: such a name is not
/// resolved through the search path when the hook is started.
pub fn accept_hit(name: &str, on_path: Option<String>) -> (hit: Option<String>)
    ensures
        hit == (if is_hook_name(name@) {
            on_path
        } else {
            None::<String>
        }),
{
    if valid_hook_name(name) {
        on_path
    } else {
        None
    }
}

} // verus!
