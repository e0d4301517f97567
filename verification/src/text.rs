//! Checks on names that cross the driver boundary: the driver takes
//! null-terminated strings, so a name that is to be handed over must not
//! itself contain a null character.

use vstd::prelude::*;
use vstd::string::StrSliceExecFns;

verus! {

/// Whether a string holds no null character and can be null-terminated.
pub open spec fn nul_free(s: Seq<char>) -> bool {
    forall|i: int| 0 <= i < s.len() ==> s[i] != '\0'
}

/// Decides whether a name can be handed to the driver.
pub fn is_nul_free(s: &str) -> (r: bool)
    ensures
        r == nul_free(s@),
{
    let n = s.unicode_len();
    let mut i: usize = 0;
    while i < n
        invariant
            n == s@.len(),
            i <= n,
            forall|j: int| 0 <= j < i ==> s@[j] != '\0',
        decreases n - i,
    {
        if s.get_char(i) == '\0' {
            return false;
        }
        i = i + 1;
    }
    true
}

} // verus!
