//! The pure decisions behind firmware setup: which revision is acceptable
//! and which of the enumerated display modes to select.  The calls that
//! query and set modes are firmware I/O and stay outside the library; they
//! hand these functions plain values.

use vstd::prelude::*;

verus! {

/// The firmware revision is recent enough for the drawing stack:
/// at least major 2, minor 31.
pub fn revision_supported(major: u16, minor: u16) -> (ok: bool)
    ensures
        ok == (major > 2 || (major == 2 && minor >= 31)),
{
    !(major < 2 || (major == 2 && minor < 31))
}

/// The first mode (by index) whose resolution equals the desired one, or
/// nothing when no enumerated mode matches.
pub fn select_mode(modes: &Vec<(u32, u32)>, desired: (u32, u32)) -> (r: Option<usize>)
    ensures
        match r {
            Some(i) => i < modes@.len() && modes@[i as int] == desired && forall|j: int|
                0 <= j < i ==> modes@[j] != desired,
            None => forall|j: int| 0 <= j < modes@.len() ==> modes@[j] != desired,
        },
{
    let n = modes.len();
    let mut k: usize = 0;
    while k < n
        invariant
            n == modes@.len(),
            k <= n,
            forall|j: int| 0 <= j < k ==> modes@[j] != desired,
        decreases n - k,
    {
        let m = modes[k];
        if m.0 == desired.0 && m.1 == desired.1 {
            return Some(k);
        }
        k = k + 1;
    }
    None
}

} // verus!
