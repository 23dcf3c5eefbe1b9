use vstd::prelude::*;

verus! {

/// Where a relay connection's bytes come from (input) or go to (output).
#[derive(Debug, PartialEq, Eq)]
pub enum RelayTarget {
    /// The sentinel path "-": standard input on an input connection,
    /// standard output on an output connection.
    Standard,
    /// Any other path names a file: opened for reading on an input
    /// connection, created or truncated on an output connection.
    Named(String),
}

/// Classifies the path received in a relay's first frame: exactly the
/// sentinel "-" selects the standard stream, every other path names a
/// file, kept verbatim.
pub fn classify_path(path: String) -> (t: RelayTarget)
    ensures
        path@ == "-"@ ==> t == RelayTarget::Standard,
        path@ != "-"@ ==> t == RelayTarget::Named(path),
{
    let dash: String = "-".to_owned();
    if path == dash {
        RelayTarget::Standard
    } else {
        RelayTarget::Named(path)
    }
}

} // verus!
