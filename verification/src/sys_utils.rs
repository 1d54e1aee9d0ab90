//! Host-facing helpers: verbosity levels and interactive-prompt parsing.
//!
//! The embedding program stores the verbosity once, process-wide, at
//! startup; the functions here take the stored level as an argument and
//! decide what it enables.

use vstd::prelude::*;

verus! {

/// The verbosity level in effect for a stored cell value: an unset cell
/// means level zero.
pub fn get_global_verbosity(stored: Option<u8>) -> (level: u8)
    ensures
        level == match stored {
            Some(v) => v,
            None => 0u8,
        },
{
    match stored {
        Some(v) => v,
        None => 0,
    }
}

/// Informational logging is enabled at any nonzero verbosity.
pub fn v_is_info(level: u8) -> (enabled: bool)
    ensures
        enabled == (level > 0),
{
    level > 0
}

/// Debug logging needs a verbosity above one.
pub fn v_is_debug(level: u8) -> (enabled: bool)
    ensures
        enabled == (level > 1),
{
    level > 1
}

/// The firehose needs a verbosity above two.
pub fn v_is_everything(level: u8) -> (enabled: bool)
    ensures
        enabled == (level > 2),
{
    level > 2
}

/// Whether a line typed at a yes/no prompt counts as a yes: it does exactly
/// when it contains `y`, `Y` or `1`.
pub fn answer_is_yes(input: &str) -> (yes: bool)
    ensures
        yes == exists|i: int|
            0 <= i < input@.len() && (input@[i] == 'y' || input@[i] == 'Y' || input@[i] == '1'),
{
    let len = input.unicode_len();
    let mut i: usize = 0;
    while i < len
        invariant
            len == input@.len(),
            0 <= i <= len,
            forall|j: int|
                0 <= j < i ==> !(input@[j] == 'y' || input@[j] == 'Y' || input@[j] == '1'),
        decreases len - i,
    {
        let c = input.get_char(i);
        if c == 'y' || c == 'Y' || c == '1' {
            return true;
        }
        i = i + 1;
    }
    false
}

} // verus!
