use vstd::prelude::*;

verus! {

/// What went wrong while fixing the permissions.
#[derive(Clone, Copy, Debug, PartialEq, Eq, Structural)]
pub enum ErrorKind {
    /// No override is set and the home directory cannot be determined.
    HomeDirUnknown,
    /// The configuration directory (or one of its ancestors) could not be created.
    CreateDir,
    /// The configuration file could not be created or opened.
    OpenFile,
    /// The metadata of a path could not be read.
    ReadMetadata,
    /// New permission bits could not be applied to a path.
    WriteMetadata,
}

/// A fatal error: its kind, the path it concerns (empty where there is
/// none) and the underlying system's description of the failure.
#[derive(Debug, PartialEq, Eq)]
pub struct FixError {
    pub kind: ErrorKind,
    pub path: String,
    pub detail: String,
}

/// The opening words of a message for an error of `kind`.
pub open spec fn kind_prefix(kind: ErrorKind) -> Seq<char> {
    match kind {
        ErrorKind::HomeDirUnknown => "cannot determine the home directory and GNUPGHOME is not set"@,
        ErrorKind::CreateDir => "cannot create directory "@,
        ErrorKind::OpenFile => "cannot open file "@,
        ErrorKind::ReadMetadata => "cannot read the metadata of "@,
        ErrorKind::WriteMetadata => "cannot set the permissions of "@,
    }
}

/// The message for an error: the prefix alone where there is no path, else
/// the prefix, the path, a colon and the system's description.
pub open spec fn error_message(kind: ErrorKind, path: Seq<char>, detail: Seq<char>) -> Seq<char> {
    if kind == ErrorKind::HomeDirUnknown {
        kind_prefix(kind)
    } else {
        kind_prefix(kind) + path + ": "@ + detail
    }
}

impl FixError {
    /// A description of the error for the user.
    pub fn message(&self) -> (r: String)
        ensures
            r@ == error_message(self.kind, self.path@, self.detail@),
    {
        let prefix = match self.kind {
            ErrorKind::HomeDirUnknown => {
                return String::from_str("cannot determine the home directory and GNUPGHOME is not set");
            },
            ErrorKind::CreateDir => "cannot create directory ",
            ErrorKind::OpenFile => "cannot open file ",
            ErrorKind::ReadMetadata => "cannot read the metadata of ",
            ErrorKind::WriteMetadata => "cannot set the permissions of ",
        };
        let mut r = String::from_str(prefix);
        r.append(self.path.as_str());
        r.append(": ");
        r.append(self.detail.as_str());
        r
    }
}

} // verus!
