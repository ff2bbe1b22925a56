//! What the host and the sidecar agree on: the name under which the backend
//! executable is bundled, and the cooperative shutdown protocol, one line of
//! text on the child's standard input, which the child answers by ending
//! itself. The host never kills the child: the bundled executable may be a
//! bootstrapper whose real worker the host has no handle for.

use vstd::prelude::*;

verus! {

/// The logical name of the bundled backend executable.
pub open spec fn sidecar_program_text() -> Seq<char> {
    "main"@
}

/// The name under which the host resolves the bundled backend executable.
pub fn sidecar_program() -> (name: &'static str)
    ensures
        name@ == sidecar_program_text(),
{
    "main"
}

/// The shutdown line: the command followed by the newline that ends it.
pub open spec fn shutdown_line_text() -> Seq<char> {
    "sidecar shutdown\n"@
}

/// The line that asks the sidecar to end itself, newline included. The host
/// writes its bytes to the child's standard input.
pub fn shutdown_line() -> (line: &'static str)
    ensures
        line@ == shutdown_line_text(),
{
    "sidecar shutdown\n"
}

/// The shutdown line is a single line: it ends in a newline and holds no
/// other, so the child reads exactly one command from it.
pub proof fn law_shutdown_line_is_one_line()
    ensures
        shutdown_line_text().len() == 17,
        shutdown_line_text().last() == '\n',
        forall|i: int| 0 <= i < 16 ==> shutdown_line_text()[i] != '\n',
        shutdown_line_text().subrange(0, 16) == "sidecar shutdown"@,
{
    reveal_strlit("sidecar shutdown\n");
    reveal_strlit("sidecar shutdown");
    assert(shutdown_line_text().subrange(0, 16) =~= "sidecar shutdown"@);
}

} // verus!
