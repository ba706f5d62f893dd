//! What an input that echoes its text shows beside it.

use vstd::prelude::*;
use vstd::string::StringExecFns;

verus! {

/// The echo of an input's value: `"You typed: "` followed by the value, or
/// nothing while the input is empty.
pub open spec fn echo_of(value: Seq<char>) -> Seq<char> {
    if value.len() == 0 {
        Seq::empty()
    } else {
        "You typed: "@ + value
    }
}

/// The line shown under the input: the echo, or a waiting hint while there
/// is no echo.
pub open spec fn shown_line(echo: Seq<char>) -> Seq<char> {
    if echo.len() == 0 {
        "Waiting for input..."@
    } else {
        echo
    }
}

/// The echo of the input's current value.
pub fn echo_text(value: &str) -> (s: String)
    ensures
        s@ == echo_of(value@),
{
    if value.is_empty() {
        String::new()
    } else {
        let mut s = "You typed: ".to_owned();
        s.append(value);
        s
    }
}

/// The line shown under the input for the echo `echo`.
pub fn shown_text(echo: &str) -> (s: &str)
    ensures
        s@ == shown_line(echo@),
{
    if echo.is_empty() {
        "Waiting for input..."
    } else {
        echo
    }
}

/// The line under the input is drawn in the muted colour: there is no echo
/// yet and the waiting hint is shown.
pub fn shows_hint(echo: &str) -> (r: bool)
    ensures
        r == (echo@.len() == 0),
{
    echo.is_empty()
}

/// Whatever was typed, the line under the input is never empty; it shows
/// the waiting hint exactly when nothing was typed, and otherwise ends with
/// what was typed.
pub proof fn lemma_echo_line(value: Seq<char>)
    ensures
        shown_line(echo_of(value)).len() > 0,
        value.len() == 0 ==> shown_line(echo_of(value)) == "Waiting for input..."@,
        value.len() > 0 ==> shown_line(echo_of(value)).subrange(
            shown_line(echo_of(value)).len() - value.len(),
            shown_line(echo_of(value)).len() as int,
        ) == value,
{
    reveal_strlit("Waiting for input...");
    reveal_strlit("You typed: ");
    if value.len() > 0 {
        let line = "You typed: "@ + value;
        assert(line.subrange(line.len() - value.len(), line.len() as int) =~= value);
    }
}

} // verus!
