//! Deciding whether output may carry color and style escape sequences.
use vstd::prelude::*;

verus! {

/// Colorized output is wanted only when the standard output stream is an
/// interactive terminal and the conventional no-color environment signal is
/// absent. The caller supplies both facts; the presence of the signal wins
/// whatever its value, and whatever the terminal looks like.
pub fn should_colorize_output(no_color_signal: bool, stdout_is_terminal: bool) -> (colorize: bool)
    ensures
        colorize == (!no_color_signal && stdout_is_terminal),
{
    if no_color_signal {
        false
    } else {
        stdout_is_terminal
    }
}

} // verus!
