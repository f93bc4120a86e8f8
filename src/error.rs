use vstd::prelude::*;

verus! {

/// The closed set of failures that the core reports.
#[derive(Clone, Copy, Debug, PartialEq, Eq, Structural)]
pub enum CoreError {
    /// No running process matches the target.
    ProcessNotFound,
    /// The target process went away between lookup and use.
    ProcessGone,
    /// The operating system refused the access.
    AccessDenied,
    /// Fewer bytes came back than were asked for.
    PartialRead,
    /// The target page is not writable, or the write does not fit its field.
    WriteRejected,
    /// The field name is not in the active address table.
    UnknownField,
    /// The build identifier has no address table.
    UnsupportedBuildError,
    /// The buffer ends before a header, record or block it declares.
    TruncatedFile,
    /// A record declares sizes that cannot be right.
    MalformedRecord,
    /// The collaborator that supplies file bytes failed.
    IoError,
}

} // verus!
