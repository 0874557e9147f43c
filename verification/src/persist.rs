//! The file in which the daemon's state is kept: where it lies and how its
//! text is framed. The state itself is put into text elsewhere.

use vstd::prelude::*;

verus! {

/// The place of the state file: `state.yaml` in the data directory.
pub open spec fn state_file_path_of(data_dir: Seq<char>) -> Seq<char> {
    data_dir + "/state.yaml"@
}

/// The place of the state file.
pub fn state_file_path(data_dir: &str) -> (r: String)
    ensures
        r@ == state_file_path_of(data_dir@),
{
    data_dir.to_owned().concat("/state.yaml")
}

/// The line with which the state file begins. It is a comment, so reading
/// the file passes over it.
pub open spec fn state_file_header() -> Seq<char> {
    "# The daemon state will be written to this file when the daemon is shutdown\n"@
}

/// The text of the state file: the header, then the state as a YAML
/// document.
pub fn state_file_text(document: &str) -> (r: String)
    ensures
        r@ == state_file_header() + document@,
{
    "# The daemon state will be written to this file when the daemon is shutdown\n".to_owned().concat(
        document,
    )
}

} // verus!
